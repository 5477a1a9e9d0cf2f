//! Units, the parameters of a game and the rules a configuration must meet
//! before a session is built from it.
use vstd::prelude::*;

verus! {

/// Length units in one pixel.
pub const UNITS_PER_PIXEL: i64 = 1_000_000;

/// Time units in one second. With both scales equal, a speed in length units
/// per time unit is the same number as the speed in pixels per second.
pub const TIME_UNITS_PER_SECOND: i64 = 1_000_000;

/// The spawn chance that stands for certainty. One unit of chance is a
/// thousandth of a percent.
pub const FULL_CHANCE: i64 = 100_000;

/// How many wave columns share the width of one faller.
pub const WAVE_SPREAD: i64 = 2;

/// The fixed rectangle in which the game takes place.
#[derive(Clone, Copy, Debug, PartialEq, Eq, Structural)]
pub struct Playfield {
    pub width: i64,
    pub height: i64,
}

/// Side, speed and distance from the bottom edge of the player square.
#[derive(Clone, Copy, Debug, PartialEq, Eq, Structural)]
pub struct PlayerSetup {
    pub size: i64,
    pub speed: i64,
    pub margin: i64,
}

/// Starting values and bounds of random spawning.
#[derive(Clone, Copy, Debug, PartialEq, Eq, Structural)]
pub struct Ramp {
    /// Spawn chance of the first tick.
    pub chance: i64,
    /// Added to the spawn chance after every tick.
    pub chance_step: i64,
    pub size_min: i64,
    pub size_max: i64,
    /// Added to the size offset after every tick.
    pub offset_step: i64,
    pub velocity_min: i64,
    pub velocity_max: i64,
}

/// Parameters of the scripted wave: side and speed of its fallers and the
/// distance between the two fallers of a pair.
#[derive(Clone, Copy, Debug, PartialEq, Eq, Structural)]
pub struct Wave {
    pub size: i64,
    pub velocity: i64,
    pub gap: i64,
}

/// Which of the two spawners feeds the session.
#[derive(Clone, Copy, Debug, PartialEq, Eq, Structural)]
pub enum SpawnMode {
    Stochastic,
    Scripted,
}

/// Everything a session is built from.
#[derive(Clone, Copy, Debug, PartialEq, Eq, Structural)]
pub struct Config {
    pub playfield: Playfield,
    pub player: PlayerSetup,
    pub mode: SpawnMode,
    pub ramp: Ramp,
    pub wave: Wave,
}

/// Why a configuration is refused.
#[derive(Clone, Copy, Debug, PartialEq, Eq, Structural)]
pub enum ConfigError {
    /// The playfield has no width or no height.
    EmptyPlayfield,
    /// The player square has no side, or does not fit between the walls or
    /// above its bottom margin.
    PlayerDoesNotFit,
    /// The player's speed is negative.
    NegativeSpeed,
    /// A faller size is not positive, or the size range is inverted.
    FallerSize,
    /// A faller is as wide as the playfield or wider, so that no place is
    /// left to put it.
    FallerTooWide,
    /// A faller velocity is negative, or the velocity range is inverted.
    FallerVelocity,
    /// The starting chance or one of the ramp steps is negative.
    NegativeRamp,
    /// The gap of the wave is negative or moves the second faller of a pair
    /// past the largest coordinate.
    WaveGap,
    /// The wave has more steps than a list can hold.
    WaveTooLong,
}

/// Number of columns of the wave: the columns lie `size / WAVE_SPREAD` apart
/// and start left of the right wall.
pub open spec fn wave_columns(wave: Wave, width: int) -> int {
    width * WAVE_SPREAD / (wave.size as int)
}

impl Playfield {
    pub open spec fn valid(self) -> bool {
        0 < self.width && 0 < self.height
    }
}

impl PlayerSetup {
    pub open spec fn fits(self, field: Playfield) -> bool {
        &&& 0 < self.size <= field.width
        &&& 0 <= self.margin
        &&& self.size + self.margin <= field.height
    }
}

impl Ramp {
    pub open spec fn sizes_valid(self) -> bool {
        0 < self.size_min <= self.size_max
    }

    pub open spec fn velocities_valid(self) -> bool {
        0 <= self.velocity_min <= self.velocity_max
    }

    pub open spec fn steps_valid(self) -> bool {
        0 <= self.chance && 0 <= self.chance_step && 0 <= self.offset_step
    }
}

impl Wave {
    pub open spec fn gap_valid(self, field: Playfield) -> bool {
        0 <= self.gap && field.width + self.gap <= i64::MAX
    }

    pub open spec fn length_valid(self, field: Playfield) -> bool {
        2 * wave_columns(self, field.width as int) <= usize::MAX
    }

    /// What `Pattern::generate` needs of a wave.
    pub open spec fn valid(self, field: Playfield) -> bool {
        &&& field.valid()
        &&& 0 < self.size < field.width
        &&& 0 <= self.velocity
        &&& self.gap_valid(field)
        &&& self.length_valid(field)
    }
}

impl Config {
    /// The first rule that the configuration breaks, in the order in which
    /// the rules are checked.
    pub open spec fn defect(self) -> Option<ConfigError> {
        if !self.playfield.valid() {
            Some(ConfigError::EmptyPlayfield)
        } else if !self.player.fits(self.playfield) {
            Some(ConfigError::PlayerDoesNotFit)
        } else if self.player.speed < 0 {
            Some(ConfigError::NegativeSpeed)
        } else if !self.ramp.sizes_valid() || self.wave.size <= 0 {
            Some(ConfigError::FallerSize)
        } else if self.ramp.size_max >= self.playfield.width || self.wave.size
            >= self.playfield.width {
            Some(ConfigError::FallerTooWide)
        } else if !self.ramp.velocities_valid() || self.wave.velocity < 0 {
            Some(ConfigError::FallerVelocity)
        } else if !self.ramp.steps_valid() {
            Some(ConfigError::NegativeRamp)
        } else if !self.wave.gap_valid(self.playfield) {
            Some(ConfigError::WaveGap)
        } else if !self.wave.length_valid(self.playfield) {
            Some(ConfigError::WaveTooLong)
        } else {
            None
        }
    }

    /// The configuration breaks no rule.
    pub open spec fn valid(self) -> bool {
        self.defect() is None
    }

    /// The game as it is usually played: a field of 800 by 700 pixels, a
    /// player of 30 pixels at 500 pixels per second, random fallers of 10 to
    /// 50 pixels at 200 to 500 pixels per second with a starting chance of
    /// one percent, and a wave of 30 pixel fallers in pairs 400 pixels apart.
    pub open spec fn standard_spec(mode: SpawnMode) -> Config {
        Config {
            playfield: Playfield { width: 800_000_000, height: 700_000_000 },
            player: PlayerSetup { size: 30_000_000, speed: 500, margin: 10_000_000 },
            mode,
            ramp: Ramp {
                chance: 1_000,
                chance_step: 1,
                size_min: 10_000_000,
                size_max: 50_000_000,
                offset_step: 3_000,
                velocity_min: 200,
                velocity_max: 500,
            },
            wave: Wave { size: 30_000_000, velocity: 300, gap: 400_000_000 },
        }
    }

    /// Builds the standard configuration for the given spawner.
    pub fn standard(mode: SpawnMode) -> (config: Config)
        ensures
            config == Config::standard_spec(mode),
            config.valid(),
    {
        Config {
            playfield: Playfield { width: 800_000_000, height: 700_000_000 },
            player: PlayerSetup { size: 30_000_000, speed: 500, margin: 10_000_000 },
            mode,
            ramp: Ramp {
                chance: 1_000,
                chance_step: 1,
                size_min: 10_000_000,
                size_max: 50_000_000,
                offset_step: 3_000,
                velocity_min: 200,
                velocity_max: 500,
            },
            wave: Wave { size: 30_000_000, velocity: 300, gap: 400_000_000 },
        }
    }

    /// Checks the configuration rule by rule and reports the first one that
    /// is broken.
    pub fn validate(&self) -> (outcome: Result<(), ConfigError>)
        ensures
            outcome == match self.defect() {
                Some(error) => Err::<(), ConfigError>(error),
                None => Ok::<(), ConfigError>(()),
            },
    {
        let field = self.playfield;
        if field.width <= 0 || field.height <= 0 {
            return Err(ConfigError::EmptyPlayfield);
        }
        let player = self.player;
        if player.size <= 0 || player.size > field.width || player.margin < 0 || player.size as i128
            + player.margin as i128 > field.height as i128 {
            return Err(ConfigError::PlayerDoesNotFit);
        }
        if player.speed < 0 {
            return Err(ConfigError::NegativeSpeed);
        }
        let ramp = self.ramp;
        let wave = self.wave;
        if ramp.size_min <= 0 || ramp.size_min > ramp.size_max || wave.size <= 0 {
            return Err(ConfigError::FallerSize);
        }
        if ramp.size_max >= field.width || wave.size >= field.width {
            return Err(ConfigError::FallerTooWide);
        }
        if ramp.velocity_min < 0 || ramp.velocity_min > ramp.velocity_max || wave.velocity < 0 {
            return Err(ConfigError::FallerVelocity);
        }
        if ramp.chance < 0 || ramp.chance_step < 0 || ramp.offset_step < 0 {
            return Err(ConfigError::NegativeRamp);
        }
        if wave.gap < 0 || field.width as i128 + wave.gap as i128 > i64::MAX as i128 {
            return Err(ConfigError::WaveGap);
        }
        let columns: i128 = field.width as i128 * WAVE_SPREAD as i128 / wave.size as i128;
        if 2 * columns > usize::MAX as i128 {
            return Err(ConfigError::WaveTooLong);
        }
        Ok(())
    }
}

} // verus!
