//! Triple-buffered input latches.
//!
//! Asynchronous producers (key handlers, device-orientation handlers)
//! may write the `live` generation at any time between frames.  At the
//! start of a frame the engine copies `live` into `current`, and at the
//! end of the frame `current` into `previous`; everything the frame
//! computes reads only the two stable generations, so a whole frame
//! sees one consistent snapshot and can tell a freshly pressed key
//! (`current` and not `previous`) from a held one.

use vstd::prelude::*;

verus! {

/// The closed set of logical keys the game reacts to.
#[derive(Clone, Copy, PartialEq, Eq, Structural, Debug)]
pub enum KeyType {
    Right,
    Left,
    S,
    A,
    Enter,
    FullScreen,
}

/// How the device is being held, as far as the host has reported.
#[derive(Clone, Copy, PartialEq, Eq, Structural, Debug)]
pub enum OrientationType {
    Unknown,
    Portrait,
    Landscape,
}

/// One generation of key states: one flag per logical key, so that a
/// snapshot is a plain value copy.  A key that was never written reads
/// as `false`.
#[derive(Clone, Copy, PartialEq, Eq, Structural, Debug)]
pub struct KeyFlags {
    pub right: bool,
    pub left: bool,
    pub s: bool,
    pub a: bool,
    pub enter: bool,
    pub fullscreen: bool,
}

impl KeyFlags {
    /// The flag stored for `key`.
    pub open spec fn spec_get(self, key: KeyType) -> bool {
        match key {
            KeyType::Right => self.right,
            KeyType::Left => self.left,
            KeyType::S => self.s,
            KeyType::A => self.a,
            KeyType::Enter => self.enter,
            KeyType::FullScreen => self.fullscreen,
        }
    }

    /// All keys released.
    pub open spec fn spec_released() -> KeyFlags {
        KeyFlags { right: false, left: false, s: false, a: false, enter: false, fullscreen: false }
    }

    pub fn released() -> (r: KeyFlags)
        ensures
            r == Self::spec_released(),
    {
        KeyFlags { right: false, left: false, s: false, a: false, enter: false, fullscreen: false }
    }

    pub fn get(&self, key: KeyType) -> (r: bool)
        ensures
            r == self.spec_get(key),
    {
        match key {
            KeyType::Right => self.right,
            KeyType::Left => self.left,
            KeyType::S => self.s,
            KeyType::A => self.a,
            KeyType::Enter => self.enter,
            KeyType::FullScreen => self.fullscreen,
        }
    }

    /// Stores `pressed` for `key` and touches no other key.
    pub fn set(&mut self, key: KeyType, pressed: bool)
        ensures
            final(self).spec_get(key) == pressed,
            forall|k: KeyType|
                k != key ==> #[trigger] final(self).spec_get(k) == old(self).spec_get(k),
    {
        match key {
            KeyType::Right => self.right = pressed,
            KeyType::Left => self.left = pressed,
            KeyType::S => self.s = pressed,
            KeyType::A => self.a = pressed,
            KeyType::Enter => self.enter = pressed,
            KeyType::FullScreen => self.fullscreen = pressed,
        }
    }
}

/// Three generations of key flags.
pub struct KeyState {
    /// Written by input producers at any time.
    pub live: KeyFlags,
    /// Frame-stable snapshot taken at the start of the frame.
    pub current: KeyFlags,
    /// The previous frame's snapshot.
    pub previous: KeyFlags,
}

impl KeyState {
    /// All generations start with every key released.
    pub fn new() -> (r: KeyState)
        ensures
            r.live == KeyFlags::spec_released(),
            r.current == KeyFlags::spec_released(),
            r.previous == KeyFlags::spec_released(),
    {
        KeyState {
            live: KeyFlags::released(),
            current: KeyFlags::released(),
            previous: KeyFlags::released(),
        }
    }

    /// Asynchronous write into the `live` generation.
    pub fn dispatch(&mut self, key: KeyType, pressed: bool)
        ensures
            final(self).live.spec_get(key) == pressed,
            forall|k: KeyType|
                k != key ==> #[trigger] final(self).live.spec_get(k) == old(self).live.spec_get(k),
            final(self).current == old(self).current,
            final(self).previous == old(self).previous,
    {
        self.live.set(key, pressed);
    }

    /// Latches the live generation: afterwards `current` holds, for
    /// every key, exactly what `live` held at the moment of the call.
    pub fn begin_frame(&mut self)
        ensures
            final(self).current == old(self).live,
            final(self).live == old(self).live,
            final(self).previous == old(self).previous,
            forall|k: KeyType|
                #[trigger] final(self).current.spec_get(k) == old(self).live.spec_get(k),
    {
        self.current = self.live;
    }

    /// Retires the frame snapshot into `previous`.
    pub fn commit_frame(&mut self)
        ensures
            final(self).previous == old(self).current,
            final(self).live == old(self).live,
            final(self).current == old(self).current,
    {
        self.previous = self.current;
    }

    /// Whether `key` is down in this frame's snapshot.
    pub fn held(&self, key: KeyType) -> (r: bool)
        ensures
            r == self.current.spec_get(key),
    {
        self.current.get(key)
    }

    /// The edge trigger for `key`.
    pub open spec fn spec_edge_pressed(self, key: KeyType) -> bool {
        self.current.spec_get(key) && !self.previous.spec_get(key)
    }

    /// True exactly on the frame whose snapshot turned `key` from
    /// released to pressed; false while the key is merely held, since
    /// `previous` then already records it as down.
    pub fn edge_pressed(&self, key: KeyType) -> (r: bool)
        ensures
            r == self.spec_edge_pressed(key),
    {
        self.current.get(key) && !self.previous.get(key)
    }
}

/// A key held across consecutive snapshots never fires the edge again:
/// once `previous` records the key as down, the edge is gone until the
/// key is released and pressed anew.
pub proof fn lemma_edge_fires_once(s: KeyState, key: KeyType)
    requires
        s.previous.spec_get(key),
    ensures
        !s.spec_edge_pressed(key),
{
}

/// Largest tilt magnitude the engine accepts, in [`TILT_ONE`]-scaled
/// radians: a full turn lies well inside it.
pub const TILT_LIMIT: i64 = 0x20_0000;

/// One device-orientation sample, in radians scaled by [`TILT_ONE`].
/// The host converts the degree-valued sensor readings once, at the
/// boundary.
pub const TILT_ONE: i64 = 65536;

#[derive(Clone, Copy, PartialEq, Eq, Structural, Debug)]
pub struct DeviceTilt {
    /// Whether the sample is absolute.
    pub abs: i64,
    /// Yaw, about the z axis.
    pub alpha: i64,
    /// Roll, about the x axis.
    pub beta: i64,
    /// Pitch, about the y axis.
    pub gamma: i64,
}

impl DeviceTilt {
    /// Every component within [`TILT_LIMIT`].
    pub open spec fn spec_bounded(self) -> bool {
        &&& -TILT_LIMIT <= self.abs <= TILT_LIMIT
        &&& -TILT_LIMIT <= self.alpha <= TILT_LIMIT
        &&& -TILT_LIMIT <= self.beta <= TILT_LIMIT
        &&& -TILT_LIMIT <= self.gamma <= TILT_LIMIT
    }

    /// The level sample.
    pub open spec fn spec_level() -> DeviceTilt {
        DeviceTilt { abs: 0, alpha: 0, beta: 0, gamma: 0 }
    }

    pub fn level() -> (r: DeviceTilt)
        ensures
            r == Self::spec_level(),
    {
        DeviceTilt { abs: 0, alpha: 0, beta: 0, gamma: 0 }
    }
}

/// Three generations of orientation samples, plus the classification
/// derived once per frame and a flag that turns on with the first
/// sample ever received.
pub struct TiltState {
    pub active: bool,
    pub orient: OrientationType,
    /// Written by the orientation handler at any time.
    pub live: DeviceTilt,
    /// Frame-stable snapshot taken at the start of the frame.
    pub current: DeviceTilt,
    /// The previous frame's snapshot.
    pub previous: DeviceTilt,
}

impl TiltState {
    /// Starts inactive, unclassified and level in all generations.
    pub fn new() -> (r: TiltState)
        ensures
            !r.active,
            r.orient == OrientationType::Unknown,
            r.live == DeviceTilt::spec_level(),
            r.current == DeviceTilt::spec_level(),
            r.previous == DeviceTilt::spec_level(),
    {
        TiltState {
            active: false,
            orient: OrientationType::Unknown,
            live: DeviceTilt::level(),
            current: DeviceTilt::level(),
            previous: DeviceTilt::level(),
        }
    }

    /// Latches the live sample for this frame.
    pub fn begin_frame(&mut self)
        ensures
            final(self).current == old(self).live,
            final(self).live == old(self).live,
            final(self).previous == old(self).previous,
            final(self).active == old(self).active,
            final(self).orient == old(self).orient,
    {
        self.current = self.live;
    }

    /// Retires the frame sample into `previous`.
    pub fn commit_frame(&mut self)
        ensures
            final(self).previous == old(self).current,
            final(self).live == old(self).live,
            final(self).current == old(self).current,
            final(self).active == old(self).active,
            final(self).orient == old(self).orient,
    {
        self.previous = self.current;
    }
}

} // verus!
