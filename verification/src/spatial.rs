//! Spatialization state for sources and for the device-side listener.
//!
//! The engine carries full 3-D source and listener parameters — position,
//! velocity, direction, cone, attenuation model, gains and distances — as
//! fixed-point values in thousandths.  Rendering the parameters into
//! amplitude changes is the playback side's business; the frame path here
//! passes samples through unchanged, which `process` states exactly.

use vstd::prelude::*;

verus! {

#[derive(Debug, Clone)]
pub enum AudioSpatializationError {
    InitializationFailed(i32),
    InvalidChannels(u32),
    ProcessError(i32),
    OperationError(i32),
    NotInitialized,
    ListenerNotInitialized,
}

#[derive(Debug, Clone)]
pub enum AudioSpatializationListenerError {
    InitializationFailed(i32),
    InvalidChannels(u32),
    NotInitialized,
}

/// How gain falls off with distance.
#[derive(Debug, Clone, Copy, PartialEq, Eq, Structural)]
pub enum AttenuationModel {
    Disabled,
    Inverse,
    Linear,
    Exponential,
}

/// Whether a source's position is absolute or relative to the listener.
#[derive(Debug, Clone, Copy, PartialEq, Eq, Structural)]
pub enum Positioning {
    Absolute,
    Relative,
}

/// A 3-D vector in thousandths of a unit.
#[derive(Debug, Clone, Copy, PartialEq, Eq, Structural)]
pub struct Vec3Milli {
    pub x: i64,
    pub y: i64,
    pub z: i64,
}

/// A sound cone: angles in thousandths of a radian, gain in thousandths.
#[derive(Debug, Clone, Copy, PartialEq, Eq, Structural)]
pub struct ConeMilli {
    pub inner_angle: i64,
    pub outer_angle: i64,
    pub outer_gain: i64,
}

/// Source-side spatialization state.
#[derive(Clone)]
pub struct AudioSpatialization {
    pub channels_in: u32,
    pub channels_out: u32,
    pub position: Vec3Milli,
    pub velocity: Vec3Milli,
    pub direction: Vec3Milli,
    pub cone: ConeMilli,
    pub attenuation_model: AttenuationModel,
    pub positioning: Positioning,
    pub rolloff: i64,
    pub min_gain: i64,
    pub max_gain: i64,
    pub min_distance: i64,
    pub max_distance: i64,
    pub doppler_factor: i64,
    pub directional_attenuation_factor: i64,
}

impl AudioSpatialization {
    pub open spec fn wf(&self) -> bool {
        &&& 1 <= self.channels_in <= 8
        &&& 1 <= self.channels_out <= 8
    }

    /// Source spatialization state with miniature defaults: the origin,
    /// inverse attenuation, absolute positioning, unity factors.
    pub fn new(channels_in: u32, channels_out: u32) -> (r: Result<
        AudioSpatialization,
        AudioSpatializationError,
    >)
        ensures
            !(1 <= channels_in <= 8) ==> r == Err::<AudioSpatialization, AudioSpatializationError>(
                AudioSpatializationError::InvalidChannels(channels_in),
            ),
            1 <= channels_in <= 8 && !(1 <= channels_out <= 8) ==> r == Err::<
                AudioSpatialization,
                AudioSpatializationError,
            >(AudioSpatializationError::InvalidChannels(channels_out)),
            1 <= channels_in <= 8 && 1 <= channels_out <= 8 ==> (r matches Ok(s) && s.wf()
                && s.channels_in == channels_in && s.channels_out == channels_out && s.position
                == (Vec3Milli { x: 0, y: 0, z: 0 }) && s.attenuation_model
                == AttenuationModel::Inverse && s.positioning == Positioning::Absolute),
    {
        if channels_in < 1 || channels_in > 8 {
            return Err(AudioSpatializationError::InvalidChannels(channels_in));
        }
        if channels_out < 1 || channels_out > 8 {
            return Err(AudioSpatializationError::InvalidChannels(channels_out));
        }
        Ok(
            AudioSpatialization {
                channels_in,
                channels_out,
                position: Vec3Milli { x: 0, y: 0, z: 0 },
                velocity: Vec3Milli { x: 0, y: 0, z: 0 },
                direction: Vec3Milli { x: 0, y: 0, z: -1000 },
                cone: ConeMilli { inner_angle: 6283, outer_angle: 6283, outer_gain: 0 },
                attenuation_model: AttenuationModel::Inverse,
                positioning: Positioning::Absolute,
                rolloff: 1000,
                min_gain: 0,
                max_gain: 1000,
                min_distance: 1000,
                max_distance: i64::MAX,
                doppler_factor: 1000,
                directional_attenuation_factor: 1000,
            },
        )
    }

    pub fn set_position(&mut self, x: i64, y: i64, z: i64)
        ensures
            *final(self) == (AudioSpatialization { position: Vec3Milli { x, y, z }, ..*old(self) }),
    {
        self.position = Vec3Milli { x, y, z };
    }

    pub fn get_position(&self) -> (r: (i64, i64, i64))
        ensures
            r == (self.position.x, self.position.y, self.position.z),
    {
        (self.position.x, self.position.y, self.position.z)
    }

    pub fn set_velocity(&mut self, x: i64, y: i64, z: i64)
        ensures
            *final(self) == (AudioSpatialization { velocity: Vec3Milli { x, y, z }, ..*old(self) }),
    {
        self.velocity = Vec3Milli { x, y, z };
    }

    pub fn get_velocity(&self) -> (r: (i64, i64, i64))
        ensures
            r == (self.velocity.x, self.velocity.y, self.velocity.z),
    {
        (self.velocity.x, self.velocity.y, self.velocity.z)
    }

    pub fn set_direction(&mut self, x: i64, y: i64, z: i64)
        ensures
            *final(self) == (AudioSpatialization {
                direction: Vec3Milli { x, y, z },
                ..*old(self)
            }),
    {
        self.direction = Vec3Milli { x, y, z };
    }

    pub fn get_direction(&self) -> (r: (i64, i64, i64))
        ensures
            r == (self.direction.x, self.direction.y, self.direction.z),
    {
        (self.direction.x, self.direction.y, self.direction.z)
    }

    pub fn set_doppler_factor(&mut self, doppler_factor: i64)
        ensures
            *final(self) == (AudioSpatialization { doppler_factor, ..*old(self) }),
    {
        self.doppler_factor = doppler_factor;
    }

    pub fn get_doppler_factor(&self) -> (r: i64)
        ensures
            r == self.doppler_factor,
    {
        self.doppler_factor
    }

    pub fn set_attenuation_model(&mut self, attenuation_model: AttenuationModel)
        ensures
            *final(self) == (AudioSpatialization { attenuation_model, ..*old(self) }),
    {
        self.attenuation_model = attenuation_model;
    }

    pub fn get_attenuation_model(&self) -> (r: AttenuationModel)
        ensures
            r == self.attenuation_model,
    {
        self.attenuation_model
    }

    pub fn set_positioning(&mut self, positioning: Positioning)
        ensures
            *final(self) == (AudioSpatialization { positioning, ..*old(self) }),
    {
        self.positioning = positioning;
    }

    pub fn get_positioning(&self) -> (r: Positioning)
        ensures
            r == self.positioning,
    {
        self.positioning
    }

    pub fn set_rolloff(&mut self, rolloff: i64)
        ensures
            *final(self) == (AudioSpatialization { rolloff, ..*old(self) }),
    {
        self.rolloff = rolloff;
    }

    pub fn get_rolloff(&self) -> (r: i64)
        ensures
            r == self.rolloff,
    {
        self.rolloff
    }

    pub fn set_min_gain(&mut self, min_gain: i64)
        ensures
            *final(self) == (AudioSpatialization { min_gain, ..*old(self) }),
    {
        self.min_gain = min_gain;
    }

    pub fn get_min_gain(&self) -> (r: i64)
        ensures
            r == self.min_gain,
    {
        self.min_gain
    }

    pub fn set_max_gain(&mut self, max_gain: i64)
        ensures
            *final(self) == (AudioSpatialization { max_gain, ..*old(self) }),
    {
        self.max_gain = max_gain;
    }

    pub fn get_max_gain(&self) -> (r: i64)
        ensures
            r == self.max_gain,
    {
        self.max_gain
    }

    pub fn set_min_distance(&mut self, min_distance: i64)
        ensures
            *final(self) == (AudioSpatialization { min_distance, ..*old(self) }),
    {
        self.min_distance = min_distance;
    }

    pub fn get_min_distance(&self) -> (r: i64)
        ensures
            r == self.min_distance,
    {
        self.min_distance
    }

    pub fn set_max_distance(&mut self, max_distance: i64)
        ensures
            *final(self) == (AudioSpatialization { max_distance, ..*old(self) }),
    {
        self.max_distance = max_distance;
    }

    pub fn get_max_distance(&self) -> (r: i64)
        ensures
            r == self.max_distance,
    {
        self.max_distance
    }

    pub fn set_cone(&mut self, inner_angle: i64, outer_angle: i64, outer_gain: i64)
        ensures
            *final(self) == (AudioSpatialization {
                cone: ConeMilli { inner_angle, outer_angle, outer_gain },
                ..*old(self)
            }),
    {
        self.cone = ConeMilli { inner_angle, outer_angle, outer_gain };
    }

    pub fn get_cone(&self) -> (r: (i64, i64, i64))
        ensures
            r == (self.cone.inner_angle, self.cone.outer_angle, self.cone.outer_gain),
    {
        (self.cone.inner_angle, self.cone.outer_angle, self.cone.outer_gain)
    }

    pub fn set_directional_attenuation_factor(&mut self, directional_attenuation_factor: i64)
        ensures
            *final(self) == (AudioSpatialization {
                directional_attenuation_factor,
                ..*old(self)
            }),
    {
        self.directional_attenuation_factor = directional_attenuation_factor;
    }

    pub fn get_directional_attenuation_factor(&self) -> (r: i64)
        ensures
            r == self.directional_attenuation_factor,
    {
        self.directional_attenuation_factor
    }

    /// Carries `frame_count` frames from `input` to the front of `output`
    /// unchanged — the spatial parameters and the listener steer playback,
    /// not this frame path.  The rest of `output` is untouched.  Fails
    /// when either buffer is shorter than `frame_count * channels_in`
    /// samples.
    #[verifier::loop_isolation(false)]
    pub fn process(
        &mut self,
        _listener: &AudioSpatializationListener,
        input: &Vec<i16>,
        output: &mut Vec<i16>,
        frame_count: u64,
    ) -> (r: Result<(), AudioSpatializationError>)
        requires
            old(self).wf(),
        ensures
            *final(self) == *old(self),
            final(output).len() == old(output).len(),
            ({
                let n = frame_count * old(self).channels_in;
                if input.len() >= n && old(output).len() >= n {
                    &&& r is Ok
                    &&& forall|i: int| 0 <= i < n ==> final(output)@[i] == input@[i]
                    &&& forall|i: int|
                        n <= i < old(output).len() ==> final(output)@[i] == old(output)@[i]
                } else {
                    r is Err && *final(output) == *old(output)
                }
            }),
    {
        proof {
            crate::fixed::lemma_sample_count_bounds(frame_count as int, self.channels_in as int);
        }
        let needed: u128 = (frame_count as u128) * (self.channels_in as u128);
        if (input.len() as u128) < needed {
            return Err(AudioSpatializationError::ProcessError(0));
        }
        if (output.len() as u128) < needed {
            return Err(AudioSpatializationError::ProcessError(0));
        }
        let n: usize = (frame_count as usize) * (self.channels_in as usize);
        for i in 0..n
            invariant
                output.len() == old(output).len(),
                forall|j: int| 0 <= j < i ==> output@[j] == input@[j],
                forall|j: int| i <= j < old(output).len() ==> output@[j] == old(output)@[j],
        {
            output[i] = input[i];
        }
        Ok(())
    }
}

/// Device-side listener state.
#[derive(Clone)]
pub struct AudioSpatializationListener {
    pub channels_out: u32,
    pub position: Vec3Milli,
    pub direction: Vec3Milli,
    pub velocity: Vec3Milli,
    pub world_up: Vec3Milli,
    pub cone: ConeMilli,
    pub speed_of_sound: i64,
    pub enabled: bool,
}

impl AudioSpatializationListener {
    pub open spec fn wf(&self) -> bool {
        1 <= self.channels_out <= 8
    }

    /// A listener at the origin, looking down the negative depth axis.
    pub fn new(channels_out: u32) -> (r: Result<
        AudioSpatializationListener,
        AudioSpatializationListenerError,
    >)
        ensures
            !(1 <= channels_out <= 8) ==> r == Err::<
                AudioSpatializationListener,
                AudioSpatializationListenerError,
            >(AudioSpatializationListenerError::InvalidChannels(channels_out)),
            1 <= channels_out <= 8 ==> (r matches Ok(l) && l.wf() && l.channels_out == channels_out
                && l.position == (Vec3Milli { x: 0, y: 0, z: 0 }) && l.enabled),
    {
        if channels_out < 1 || channels_out > 8 {
            return Err(AudioSpatializationListenerError::InvalidChannels(channels_out));
        }
        Ok(
            AudioSpatializationListener {
                channels_out,
                position: Vec3Milli { x: 0, y: 0, z: 0 },
                direction: Vec3Milli { x: 0, y: 0, z: -1000 },
                velocity: Vec3Milli { x: 0, y: 0, z: 0 },
                world_up: Vec3Milli { x: 0, y: 1000, z: 0 },
                cone: ConeMilli { inner_angle: 6283, outer_angle: 6283, outer_gain: 0 },
                speed_of_sound: 343_000,
                enabled: true,
            },
        )
    }

    pub fn set_position(&mut self, x: i64, y: i64, z: i64)
        ensures
            *final(self) == (AudioSpatializationListener {
                position: Vec3Milli { x, y, z },
                ..*old(self)
            }),
    {
        self.position = Vec3Milli { x, y, z };
    }

    pub fn get_position(&self) -> (r: (i64, i64, i64))
        ensures
            r == (self.position.x, self.position.y, self.position.z),
    {
        (self.position.x, self.position.y, self.position.z)
    }

    pub fn set_direction(&mut self, x: i64, y: i64, z: i64)
        ensures
            *final(self) == (AudioSpatializationListener {
                direction: Vec3Milli { x, y, z },
                ..*old(self)
            }),
    {
        self.direction = Vec3Milli { x, y, z };
    }

    pub fn get_direction(&self) -> (r: (i64, i64, i64))
        ensures
            r == (self.direction.x, self.direction.y, self.direction.z),
    {
        (self.direction.x, self.direction.y, self.direction.z)
    }

    pub fn set_velocity(&mut self, x: i64, y: i64, z: i64)
        ensures
            *final(self) == (AudioSpatializationListener {
                velocity: Vec3Milli { x, y, z },
                ..*old(self)
            }),
    {
        self.velocity = Vec3Milli { x, y, z };
    }

    pub fn get_velocity(&self) -> (r: (i64, i64, i64))
        ensures
            r == (self.velocity.x, self.velocity.y, self.velocity.z),
    {
        (self.velocity.x, self.velocity.y, self.velocity.z)
    }

    pub fn set_world_up(&mut self, x: i64, y: i64, z: i64)
        ensures
            *final(self) == (AudioSpatializationListener {
                world_up: Vec3Milli { x, y, z },
                ..*old(self)
            }),
    {
        self.world_up = Vec3Milli { x, y, z };
    }

    pub fn get_world_up(&self) -> (r: (i64, i64, i64))
        ensures
            r == (self.world_up.x, self.world_up.y, self.world_up.z),
    {
        (self.world_up.x, self.world_up.y, self.world_up.z)
    }

    pub fn set_speed_of_sound(&mut self, speed: i64)
        ensures
            *final(self) == (AudioSpatializationListener {
                speed_of_sound: speed,
                ..*old(self)
            }),
    {
        self.speed_of_sound = speed;
    }

    pub fn get_speed_of_sound(&self) -> (r: i64)
        ensures
            r == self.speed_of_sound,
    {
        self.speed_of_sound
    }

    pub fn set_cone(&mut self, inner_angle: i64, outer_angle: i64, outer_gain: i64)
        ensures
            *final(self) == (AudioSpatializationListener {
                cone: ConeMilli { inner_angle, outer_angle, outer_gain },
                ..*old(self)
            }),
    {
        self.cone = ConeMilli { inner_angle, outer_angle, outer_gain };
    }

    pub fn get_cone(&self) -> (r: (i64, i64, i64))
        ensures
            r == (self.cone.inner_angle, self.cone.outer_angle, self.cone.outer_gain),
    {
        (self.cone.inner_angle, self.cone.outer_angle, self.cone.outer_gain)
    }

    pub fn set_enabled(&mut self, is_enabled: bool)
        ensures
            *final(self) == (AudioSpatializationListener { enabled: is_enabled, ..*old(self) }),
    {
        self.enabled = is_enabled;
    }

    pub fn is_enabled(&self) -> (r: bool)
        ensures
            r == self.enabled,
    {
        self.enabled
    }
}

} // verus!
