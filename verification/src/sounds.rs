use vstd::prelude::*;

verus! {

/// The discrete effect signals the simulation produces for an audio
/// collaborator; the mapping to sample files lives here, the playback in
/// the driver.
#[derive(Clone, Copy, Debug, PartialEq, Eq, Structural)]
pub enum SoundEffect {
    PlayerExplosion,
    PlayerHit,
    PlayerLaserShoot,
    EnemyExplosion,
}

/// The sample file each effect plays.
pub open spec fn filename_of(s: SoundEffect) -> Seq<char> {
    match s {
        SoundEffect::PlayerExplosion => "player_explosion.wav"@,
        SoundEffect::PlayerHit => "hit.wav"@,
        SoundEffect::PlayerLaserShoot => "laser_shoot.wav"@,
        SoundEffect::EnemyExplosion => "enemy_explosion.wav"@,
    }
}

impl SoundEffect {
    /// The name of the sample file for this effect.
    pub fn as_filename(&self) -> (r: &'static str)
        ensures
            r@ == filename_of(*self),
    {
        match self {
            SoundEffect::PlayerExplosion => "player_explosion.wav",
            SoundEffect::PlayerHit => "hit.wav",
            SoundEffect::PlayerLaserShoot => "laser_shoot.wav",
            SoundEffect::EnemyExplosion => "enemy_explosion.wav",
        }
    }
}

} // verus!
