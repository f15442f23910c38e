//! Tracks which pointer buttons are currently held down, as the bitmask the
//! rendering engine expects in its pointer events.

use vstd::prelude::*;

verus! {

/// Device code for the left mouse button.
pub const BTN_LEFT: u16 = 0x110;

/// Device code for the right mouse button.
pub const BTN_RIGHT: u16 = 0x111;

/// Device code for the middle mouse button.
pub const BTN_MIDDLE: u16 = 0x112;

/// Device code for the forward side button.
pub const BTN_FORWARD: u16 = 0x115;

/// Device code for the back side button.
pub const BTN_BACK: u16 = 0x116;

/// Engine flag for the primary (left) mouse button.
pub const POINTER_BUTTON_PRIMARY: u64 = 1;

/// Engine flag for the secondary (right) mouse button.
pub const POINTER_BUTTON_SECONDARY: u64 = 2;

/// Engine flag for the middle mouse button.
pub const POINTER_BUTTON_MIDDLE: u64 = 4;

/// Engine flag for the back side button.
pub const POINTER_BUTTON_BACK: u64 = 8;

/// Engine flag for the forward side button.
pub const POINTER_BUTTON_FORWARD: u64 = 16;

/// The engine flag that stands for a device button code, or 0 for a button
/// the engine does not model.
pub open spec fn button_flag(code: u16) -> u64 {
    if code == BTN_LEFT {
        POINTER_BUTTON_PRIMARY
    } else if code == BTN_RIGHT {
        POINTER_BUTTON_SECONDARY
    } else if code == BTN_MIDDLE {
        POINTER_BUTTON_MIDDLE
    } else if code == BTN_BACK {
        POINTER_BUTTON_BACK
    } else if code == BTN_FORWARD {
        POINTER_BUTTON_FORWARD
    } else {
        0
    }
}

/// Distinct known buttons carry disjoint flags.
proof fn lemma_button_flags_disjoint(c1: u16, c2: u16)
    requires
        button_flag(c1) != 0,
        button_flag(c2) != 0,
        c1 != c2,
    ensures
        button_flag(c1) & button_flag(c2) == 0,
{
    assert(1u64 & 2u64 == 0 && 1u64 & 4u64 == 0 && 1u64 & 8u64 == 0 && 1u64 & 16u64 == 0 && 2u64
        & 4u64 == 0 && 2u64 & 8u64 == 0 && 2u64 & 16u64 == 0 && 4u64 & 8u64 == 0 && 4u64 & 16u64
        == 0 && 8u64 & 16u64 == 0 && 2u64 & 1u64 == 0 && 4u64 & 1u64 == 0 && 8u64 & 1u64 == 0
        && 16u64 & 1u64 == 0 && 4u64 & 2u64 == 0 && 8u64 & 2u64 == 0 && 16u64 & 2u64 == 0 && 8u64
        & 4u64 == 0 && 16u64 & 4u64 == 0 && 16u64 & 8u64 == 0) by (bit_vector);
}

/// The set of pointer buttons currently held down, kept both as the set of
/// device codes (ghost) and as the engine's button bitmask (the value every
/// outgoing pointer event carries).
pub struct MouseButtonTracker {
    /// Engine bitmask of the buttons currently held down.
    pub bitmask: u64,
    /// Device codes of the buttons currently held down.
    pub pressed_codes: Ghost<Set<u16>>,
}

impl MouseButtonTracker {
    /// The bitmask holds exactly one flag per pressed button: only buttons the
    /// engine models are recorded, membership of each such button agrees with
    /// its flag in the bitmask, and no stray bit is set.
    pub open spec fn wf(self) -> bool {
        &&& self.bitmask < 32
        &&& forall|c: u16| #[trigger] self.pressed_codes@.contains(c) ==> button_flag(c) != 0
        &&& forall|c: u16|
            #![trigger button_flag(c)]
            button_flag(c) != 0 ==> (self.pressed_codes@.contains(c) <==> self.bitmask
                & button_flag(c) != 0)
    }

    /// Starts with no buttons down.
    pub fn new() -> (t: MouseButtonTracker)
        ensures
            t.wf(),
            t.bitmask == 0,
            t.pressed_codes@ == Set::<u16>::empty(),
    {
        let t = MouseButtonTracker { bitmask: 0, pressed_codes: Ghost(Set::empty()) };
        proof {
            assert forall|c: u16| button_flag(c) != 0 implies !(t.bitmask & button_flag(c)
                != 0) by {
                let f = button_flag(c);
                assert(0u64 & f == 0) by (bit_vector);
            }
        }
        t
    }

    /// Records a button as pressed. Buttons the engine does not model are
    /// rejected and leave the state unchanged; pressing a button already down
    /// changes nothing.
    pub fn press(&mut self, button: u16) -> (r: Result<(), ()>)
        requires
            old(self).wf(),
        ensures
            final(self).wf(),
            button_flag(button) != 0 ==> {
                &&& r == Ok::<(), ()>(())
                &&& final(self).pressed_codes@ == old(self).pressed_codes@.insert(button)
                &&& final(self).bitmask == old(self).bitmask | button_flag(button)
            },
            button_flag(button) == 0 ==> r == Err::<(), ()>(()) && *final(self) == *old(self),
    {
        let flag = button_flag_exec(button);
        if flag == 0 {
            return Err(());
        }
        let ghost pre = *self;
        self.bitmask = self.bitmask | flag;
        proof {
            self.pressed_codes@ = self.pressed_codes@.insert(button);
            let m = pre.bitmask;
            let f = flag;
            assert(m < 32 && f < 32 ==> (m | f) < 32) by (bit_vector);
            assert((m | f) & f == f) by (bit_vector);
            assert forall|c: u16| button_flag(c) != 0 implies (self.pressed_codes@.contains(c)
                <==> self.bitmask & button_flag(c) != 0) by {
                if c != button {
                    lemma_button_flags_disjoint(c, button);
                    let g = button_flag(c);
                    assert(g & f == 0 ==> ((m | f) & g == m & g)) by (bit_vector);
                }
            }
        }
        Ok(())
    }

    /// Records a button as released. Buttons the engine does not model are
    /// rejected and leave the state unchanged; releasing a button that is not
    /// down changes nothing.
    pub fn release(&mut self, button: u16) -> (r: Result<(), ()>)
        requires
            old(self).wf(),
        ensures
            final(self).wf(),
            button_flag(button) != 0 ==> {
                &&& r == Ok::<(), ()>(())
                &&& final(self).pressed_codes@ == old(self).pressed_codes@.remove(button)
                &&& final(self).bitmask == old(self).bitmask & !button_flag(button)
            },
            button_flag(button) == 0 ==> r == Err::<(), ()>(()) && *final(self) == *old(self),
    {
        let flag = button_flag_exec(button);
        if flag == 0 {
            return Err(());
        }
        let ghost pre = *self;
        self.bitmask = self.bitmask & !flag;
        proof {
            self.pressed_codes@ = self.pressed_codes@.remove(button);
            let m = pre.bitmask;
            let f = flag;
            assert(m < 32 ==> (m & !f) < 32) by (bit_vector);
            assert((m & !f) & f == 0) by (bit_vector);
            assert forall|c: u16| button_flag(c) != 0 implies (self.pressed_codes@.contains(c)
                <==> self.bitmask & button_flag(c) != 0) by {
                if c != button {
                    lemma_button_flags_disjoint(c, button);
                    let g = button_flag(c);
                    assert(g & f == 0 ==> ((m & !f) & g == m & g)) by (bit_vector);
                }
            }
        }
        Ok(())
    }

    /// Whether at least one tracked button is currently down.
    pub fn are_any_buttons_pressed(&self) -> (r: bool)
        requires
            self.wf(),
        ensures
            r == (self.bitmask != 0),
            r <==> exists|c: u16| self.pressed_codes@.contains(c),
    {
        proof {
            let m = self.bitmask;
            if m != 0 {
                assert(button_flag(BTN_LEFT) == 1);
                assert(button_flag(BTN_RIGHT) == 2);
                assert(button_flag(BTN_MIDDLE) == 4);
                assert(button_flag(BTN_BACK) == 8);
                assert(button_flag(BTN_FORWARD) == 16);
                assert(m != 0 && m < 32 ==> (m & 1 != 0 || m & 2 != 0 || m & 4 != 0 || m & 8 != 0
                    || m & 16 != 0)) by (bit_vector);
                if m & button_flag(BTN_LEFT) != 0 {
                    assert(self.pressed_codes@.contains(BTN_LEFT));
                } else if m & button_flag(BTN_RIGHT) != 0 {
                    assert(self.pressed_codes@.contains(BTN_RIGHT));
                } else if m & button_flag(BTN_MIDDLE) != 0 {
                    assert(self.pressed_codes@.contains(BTN_MIDDLE));
                } else if m & button_flag(BTN_BACK) != 0 {
                    assert(self.pressed_codes@.contains(BTN_BACK));
                } else {
                    assert(self.pressed_codes@.contains(BTN_FORWARD));
                }
            } else {
                assert forall|c: u16| !self.pressed_codes@.contains(c) by {
                    if self.pressed_codes@.contains(c) {
                        let f = button_flag(c);
                        assert(0u64 & f == 0) by (bit_vector);
                    }
                }
            }
        }
        self.bitmask != 0
    }

    /// The engine bitmask of the buttons currently down.
    pub fn get_flutter_button_bitmask(&self) -> (r: u64)
        ensures
            r == self.bitmask,
    {
        self.bitmask
    }
}

/// The pressed-button bitmask carries exactly the set of currently-down
/// buttons: two trackers report the same bitmask exactly when the same
/// buttons are down in both.
pub proof fn lemma_bitmask_determines_pressed_set(a: MouseButtonTracker, b: MouseButtonTracker)
    requires
        a.wf(),
        b.wf(),
    ensures
        a.bitmask == b.bitmask <==> a.pressed_codes@ == b.pressed_codes@,
{
    if a.bitmask == b.bitmask {
        assert forall|c: u16| a.pressed_codes@.contains(c) == b.pressed_codes@.contains(c) by {
            if button_flag(c) == 0 {
                assert(!a.pressed_codes@.contains(c));
                assert(!b.pressed_codes@.contains(c));
            }
        }
        assert(a.pressed_codes@ =~= b.pressed_codes@);
    }
    if a.pressed_codes@ == b.pressed_codes@ {
        assert(button_flag(BTN_LEFT) == 1);
        assert(button_flag(BTN_RIGHT) == 2);
        assert(button_flag(BTN_MIDDLE) == 4);
        assert(button_flag(BTN_BACK) == 8);
        assert(button_flag(BTN_FORWARD) == 16);
        let ma = a.bitmask;
        let mb = b.bitmask;
        assert(ma < 32 && mb < 32 && ma != mb ==> (((ma & 1 != 0) != (mb & 1 != 0)) || ((ma & 2
            != 0) != (mb & 2 != 0)) || ((ma & 4 != 0) != (mb & 4 != 0)) || ((ma & 8 != 0) != (mb
            & 8 != 0)) || ((ma & 16 != 0) != (mb & 16 != 0)))) by (bit_vector);
        if ma != mb {
            if (ma & 1 != 0) != (mb & 1 != 0) {
                assert(a.pressed_codes@.contains(BTN_LEFT) != b.pressed_codes@.contains(BTN_LEFT));
            } else if (ma & 2 != 0) != (mb & 2 != 0) {
                assert(a.pressed_codes@.contains(BTN_RIGHT) != b.pressed_codes@.contains(
                    BTN_RIGHT,
                ));
            } else if (ma & 4 != 0) != (mb & 4 != 0) {
                assert(a.pressed_codes@.contains(BTN_MIDDLE) != b.pressed_codes@.contains(
                    BTN_MIDDLE,
                ));
            } else if (ma & 8 != 0) != (mb & 8 != 0) {
                assert(a.pressed_codes@.contains(BTN_BACK) != b.pressed_codes@.contains(BTN_BACK));
            } else {
                assert(a.pressed_codes@.contains(BTN_FORWARD) != b.pressed_codes@.contains(
                    BTN_FORWARD,
                ));
            }
        }
    }
}

/// One press or release of a device button.
#[derive(Clone, Copy, PartialEq, Eq, Structural, Debug)]
pub enum ButtonEvent {
    Press { code: u16 },
    Release { code: u16 },
}

/// The set of currently-down buttons after one event: a press of a tracked
/// button joins the set, its release leaves it; buttons the engine does not
/// model never enter.
pub open spec fn pressed_after(s: Set<u16>, e: ButtonEvent) -> Set<u16> {
    match e {
        ButtonEvent::Press { code } => if button_flag(code) != 0 {
            s.insert(code)
        } else {
            s
        },
        ButtonEvent::Release { code } => if button_flag(code) != 0 {
            s.remove(code)
        } else {
            s
        },
    }
}

/// The set of currently-down buttons a whole event sequence leaves behind.
pub open spec fn pressed_after_all(s: Set<u16>, events: Seq<ButtonEvent>) -> Set<u16>
    decreases events.len(),
{
    if events.len() == 0 {
        s
    } else {
        pressed_after_all(pressed_after(s, events[0]), events.skip(1))
    }
}

proof fn lemma_pressed_after_all_snoc(s: Set<u16>, events: Seq<ButtonEvent>, e: ButtonEvent)
    ensures
        pressed_after_all(s, events.push(e)) == pressed_after(pressed_after_all(s, events), e),
    decreases events.len(),
{
    let snoc = events.push(e);
    if events.len() == 0 {
        assert(snoc[0] == e);
        assert(snoc.skip(1) =~= Seq::<ButtonEvent>::empty());
        assert(pressed_after_all(s, snoc) == pressed_after_all(pressed_after(s, e), snoc.skip(1)));
        assert(pressed_after_all(pressed_after(s, e), snoc.skip(1)) == pressed_after(s, e));
        assert(pressed_after_all(s, events) == s);
    } else {
        assert(snoc[0] == events[0]);
        assert(snoc.skip(1) =~= events.skip(1).push(e));
        assert(pressed_after_all(s, snoc) == pressed_after_all(
            pressed_after(s, events[0]),
            events.skip(1).push(e),
        ));
        lemma_pressed_after_all_snoc(pressed_after(s, events[0]), events.skip(1), e);
        assert(pressed_after_all(s, events) == pressed_after_all(
            pressed_after(s, events[0]),
            events.skip(1),
        ));
    }
}

/// Feeds a whole sequence of press/release events through the tracker.
///
/// For every such sequence the tracker's pressed set afterwards is exactly
/// the set of currently-down buttons the sequence leaves, and by `wf` the
/// bitmask carries exactly one flag per button of that set.
pub fn apply_button_events(t: &mut MouseButtonTracker, events: &Vec<ButtonEvent>)
    requires
        old(t).wf(),
    ensures
        final(t).wf(),
        final(t).pressed_codes@ == pressed_after_all(old(t).pressed_codes@, events@),
{
    let ghost start = t.pressed_codes@;
    let mut i: usize = 0;
    while i < events.len()
        invariant
            t.wf(),
            i <= events@.len(),
            t.pressed_codes@ == pressed_after_all(start, events@.take(i as int)),
        decreases events@.len() - i,
    {
        let ghost before = events@.take(i as int);
        match events[i] {
            ButtonEvent::Press { code } => {
                let _ = t.press(code);
            },
            ButtonEvent::Release { code } => {
                let _ = t.release(code);
            },
        }
        proof {
            assert(events@.take(i + 1) =~= before.push(events@[i as int]));
            lemma_pressed_after_all_snoc(start, before, events@[i as int]);
        }
        i = i + 1;
    }
    proof {
        assert(events@.take(events@.len() as int) =~= events@);
    }
}

/// The engine flag for a device button code.
fn button_flag_exec(code: u16) -> (r: u64)
    ensures
        r == button_flag(code),
{
    if code == BTN_LEFT {
        POINTER_BUTTON_PRIMARY
    } else if code == BTN_RIGHT {
        POINTER_BUTTON_SECONDARY
    } else if code == BTN_MIDDLE {
        POINTER_BUTTON_MIDDLE
    } else if code == BTN_BACK {
        POINTER_BUTTON_BACK
    } else if code == BTN_FORWARD {
        POINTER_BUTTON_FORWARD
    } else {
        0
    }
}

} // verus!
