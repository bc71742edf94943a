use vstd::prelude::*;

verus! {

/// Degrees the view turns left or right for one look key.
pub const YAW_STEP: i64 = 5;

/// Degrees the view tilts up or down for one look key.
pub const PITCH_STEP: i64 = 3;

/// Lowest pitch, in degrees (looking down).
pub const PITCH_MIN: i64 = -35;

/// Highest pitch, in degrees (looking up).
pub const PITCH_MAX: i64 = 89;

/// What a pressed key asks of the camera.
#[derive(Clone, Copy, Debug, PartialEq, Eq, Structural)]
pub enum Control {
    StrafeLeft,
    StrafeRight,
    Forward,
    Backward,
    LookLeft,
    LookRight,
    LookUp,
    LookDown,
}

impl Control {
    /// The camera-local axis that a movement key steps along, before the
    /// camera's rotation is applied; `None` for a look key.
    pub open spec fn spec_move_axis(self) -> Option<(i8, i8, i8)> {
        match self {
            Control::StrafeLeft => Some((-1i8, 0i8, 0i8)),
            Control::StrafeRight => Some((1i8, 0i8, 0i8)),
            Control::Forward => Some((0i8, 0i8, -1i8)),
            Control::Backward => Some((0i8, 0i8, 1i8)),
            _ => None,
        }
    }

    /// The camera-local axis that a movement key steps along.
    #[verifier::when_used_as_spec(spec_move_axis)]
    pub fn move_axis(self) -> (a: Option<(i8, i8, i8)>)
        ensures
            a == self.spec_move_axis(),
    {
        match self {
            Control::StrafeLeft => Some((-1, 0, 0)),
            Control::StrafeRight => Some((1, 0, 0)),
            Control::Forward => Some((0, 0, -1)),
            Control::Backward => Some((0, 0, 1)),
            _ => None,
        }
    }
}

/// The camera's heading in whole degrees: cumulative yaw about the world's
/// up axis, and pitch about the camera's right axis, held between the two
/// limits.
#[derive(Clone, Copy, Debug, PartialEq, Eq, Structural)]
pub struct Orientation {
    pub yaw: i64,
    pub pitch: i64,
}

/// Look-left presses minus look-right presses among the controls.
pub open spec fn net_turns(cs: Seq<Control>) -> int
    decreases cs.len(),
{
    if cs.len() == 0 {
        0
    } else {
        net_turns(cs.drop_last()) + match cs.last() {
            Control::LookLeft => 1int,
            Control::LookRight => -1int,
            _ => 0int,
        }
    }
}

/// `n` turns either way from `yaw` stay within the range of `i64`.
pub open spec fn yaw_room(yaw: i64, n: nat) -> bool {
    i64::MIN + YAW_STEP * n <= yaw <= i64::MAX - YAW_STEP * n
}

impl Orientation {
    /// Pitch lies within its limits.
    pub open spec fn wf(&self) -> bool {
        PITCH_MIN <= self.pitch <= PITCH_MAX
    }

    /// The heading after one control: look left adds a yaw step and look
    /// right takes one off, look up and down tilt with pitch clamped to its
    /// limits, and movement keys leave the heading alone.
    pub open spec fn turned(self, c: Control) -> Orientation {
        match c {
            Control::LookLeft => Orientation { yaw: (self.yaw + YAW_STEP) as i64, ..self },
            Control::LookRight => Orientation { yaw: (self.yaw - YAW_STEP) as i64, ..self },
            Control::LookUp => Orientation {
                pitch: if self.pitch + PITCH_STEP > PITCH_MAX {
                    PITCH_MAX
                } else {
                    (self.pitch + PITCH_STEP) as i64
                },
                ..self
            },
            Control::LookDown => Orientation {
                pitch: if self.pitch - PITCH_STEP < PITCH_MIN {
                    PITCH_MIN
                } else {
                    (self.pitch - PITCH_STEP) as i64
                },
                ..self
            },
            _ => self,
        }
    }

    /// The heading after a sequence of controls, applied in order.
    pub open spec fn turned_all(self, cs: Seq<Control>) -> Orientation
        decreases cs.len(),
    {
        if cs.len() == 0 {
            self
        } else {
            self.turned_all(cs.drop_last()).turned(cs.last())
        }
    }

    /// Looking straight ahead along the negative z axis.
    pub fn new() -> (o: Orientation)
        ensures
            o.wf(),
            o.yaw == 0,
            o.pitch == 0,
    {
        Orientation { yaw: 0, pitch: 0 }
    }

    /// Applies one control.
    pub fn apply(&mut self, c: Control)
        requires
            old(self).wf(),
            yaw_room(old(self).yaw, 1),
        ensures
            final(self).wf(),
            *final(self) == old(self).turned(c),
    {
        match c {
            Control::LookLeft => {
                self.yaw = self.yaw + YAW_STEP;
            },
            Control::LookRight => {
                self.yaw = self.yaw - YAW_STEP;
            },
            Control::LookUp => {
                self.pitch = if self.pitch + PITCH_STEP > PITCH_MAX {
                    PITCH_MAX
                } else {
                    self.pitch + PITCH_STEP
                };
            },
            Control::LookDown => {
                self.pitch = if self.pitch - PITCH_STEP < PITCH_MIN {
                    PITCH_MIN
                } else {
                    self.pitch - PITCH_STEP
                };
            },
            _ => {},
        }
    }

    /// Applies the controls in order.
    pub fn apply_all(&mut self, cs: &Vec<Control>)
        requires
            old(self).wf(),
            yaw_room(old(self).yaw, cs@.len()),
        ensures
            final(self).wf(),
            *final(self) == old(self).turned_all(cs@),
            final(self).yaw == old(self).yaw + YAW_STEP * net_turns(cs@),
    {
        let mut i: usize = 0;
        while i < cs.len()
            invariant
                i <= cs@.len(),
                old(self).wf(),
                yaw_room(old(self).yaw, cs@.len()),
                *self == old(self).turned_all(cs@.subrange(0, i as int)),
            decreases cs@.len() - i,
        {
            proof {
                let pre = cs@.subrange(0, i as int);
                assert(cs@.subrange(0, i + 1).drop_last() =~= pre);
                lemma_heading_turns(*old(self), pre);
                assert(-(i as int) <= net_turns(pre) <= i);
                assert(YAW_STEP * (net_turns(pre) + 1) <= YAW_STEP * cs@.len()) by (nonlinear_arith)
                    requires
                        net_turns(pre) <= i,
                        i < cs@.len(),
                ;
                assert(YAW_STEP * (net_turns(pre) - 1) >= -YAW_STEP * cs@.len()) by (nonlinear_arith)
                    requires
                        -(i as int) <= net_turns(pre),
                        i < cs@.len(),
                ;
            }
            self.apply(cs[i]);
            i = i + 1;
        }
        proof {
            assert(cs@.subrange(0, i as int) =~= cs@);
            lemma_heading_turns(*old(self), cs@);
        }
    }
}

/// Whatever keys are pressed, the pitch stays within its limits, and the
/// yaw is the starting yaw plus one step per look-left press minus one step
/// per look-right press.
pub proof fn lemma_heading_turns(o: Orientation, cs: Seq<Control>)
    requires
        o.wf(),
        yaw_room(o.yaw, cs.len()),
    ensures
        o.turned_all(cs).wf(),
        o.turned_all(cs).yaw == o.yaw + YAW_STEP * net_turns(cs),
        -cs.len() <= net_turns(cs) <= cs.len(),
    decreases cs.len(),
{
    if cs.len() > 0 {
        let pre = cs.drop_last();
        assert(yaw_room(o.yaw, pre.len())) by (nonlinear_arith)
            requires
                yaw_room(o.yaw, cs.len()),
                pre.len() + 1 == cs.len(),
        ;
        lemma_heading_turns(o, pre);
        let n = net_turns(pre);
        assert(YAW_STEP * (n + 1) <= YAW_STEP * cs.len() && YAW_STEP * (n - 1) >= -YAW_STEP * cs.len()) by (nonlinear_arith)
            requires
                -pre.len() <= n <= pre.len(),
                pre.len() + 1 == cs.len(),
        ;
        assert(YAW_STEP * (n + 1) == YAW_STEP * n + YAW_STEP);
        assert(YAW_STEP * (n - 1) == YAW_STEP * n - YAW_STEP);
    }
}

} // verus!
