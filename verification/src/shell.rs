//! The window shell: the owner of the render sessions, one for each live
//! window, found by the window's handle.
//!
//! A session is made when its window is created, handed every event of that
//! window afterwards, and released once, when the window is destroyed.

use crate::error::DeviceError;
use crate::session::{Action, Event, MountainApp, Pending, SessionView};
use vstd::prelude::*;

verus! {

/// The sessions of all live windows.
pub struct WindowShell<F, T, B> {
    sessions: Vec<MountainApp<F, T, B>>,
}

/// The window of the session at place `i`.
spec fn hwnd_at<F, T, B>(sessions: Seq<MountainApp<F, T, B>>, i: int) -> isize {
    sessions[i]@.hwnd
}

/// Whether some session in the sequence belongs to window `hwnd`.
spec fn has_window<F, T, B>(sessions: Seq<MountainApp<F, T, B>>, hwnd: isize) -> bool {
    exists|i: int| 0 <= i < sessions.len() && #[trigger] hwnd_at(sessions, i) == hwnd
}

/// The place of a session of window `hwnd` in the sequence.
spec fn place_of<F, T, B>(sessions: Seq<MountainApp<F, T, B>>, hwnd: isize) -> int {
    choose|i: int| 0 <= i < sessions.len() && #[trigger] hwnd_at(sessions, i) == hwnd
}

/// No two sessions belong to one window, and each session is well formed.
spec fn one_session_each<F, T, B>(sessions: Seq<MountainApp<F, T, B>>) -> bool {
    &&& forall|i: int| 0 <= i < sessions.len() ==> (#[trigger] sessions[i]).well_formed()
    &&& forall|i: int, j: int|
        0 <= i < j < sessions.len() ==> #[trigger] hwnd_at(sessions, i) != #[trigger] hwnd_at(
            sessions,
            j,
        )
}

/// The sessions as a map from each window to the state of its session.
spec fn by_window<F, T, B>(sessions: Seq<MountainApp<F, T, B>>) -> Map<
    isize,
    SessionView<F, T, B>,
> {
    Map::new(
        |hwnd: isize| has_window(sessions, hwnd),
        |hwnd: isize| sessions[place_of(sessions, hwnd)]@,
    )
}

/// Where no window has two sessions, the session at place `i` is the one
/// that the map holds for its window.
proof fn lemma_place<F, T, B>(sessions: Seq<MountainApp<F, T, B>>, i: int)
    requires
        one_session_each(sessions),
        0 <= i < sessions.len(),
    ensures
        has_window(sessions, hwnd_at(sessions, i)),
        place_of(sessions, hwnd_at(sessions, i)) == i,
        by_window(sessions).contains_key(sessions[i]@.hwnd),
        by_window(sessions)[sessions[i]@.hwnd] == sessions[i]@,
{
    let hwnd = hwnd_at(sessions, i);
    let j = place_of(sessions, hwnd);
    assert(0 <= j < sessions.len() && hwnd_at(sessions, j) == hwnd);
    if j < i {
        assert(hwnd_at(sessions, j) != hwnd_at(sessions, i));
    } else if i < j {
        assert(hwnd_at(sessions, i) != hwnd_at(sessions, j));
    }
}

/// Adding a session of a window that has none adds that window to the map.
proof fn lemma_push<F, T, B>(sessions: Seq<MountainApp<F, T, B>>, session: MountainApp<F, T, B>)
    requires
        one_session_each(sessions),
        session.well_formed(),
        !has_window(sessions, session@.hwnd),
    ensures
        one_session_each(sessions.push(session)),
        by_window(sessions.push(session)) == by_window(sessions).insert(session@.hwnd, session@),
{
    let after = sessions.push(session);
    let last = sessions.len() as int;
    assert forall|a: int, b: int| 0 <= a < b < after.len() implies #[trigger] hwnd_at(after, a)
        != #[trigger] hwnd_at(after, b) by {
        assert(hwnd_at(after, a) == hwnd_at(sessions, a));
        if b < last {
            assert(hwnd_at(after, b) == hwnd_at(sessions, b));
        }
    }
    assert(one_session_each(after));
    assert(hwnd_at(after, last) == session@.hwnd);
    assert forall|hwnd: isize|
        has_window(after, hwnd) == (hwnd == session@.hwnd || has_window(sessions, hwnd)) by {
        if has_window(after, hwnd) {
            let k = place_of(after, hwnd);
            if k < last {
                assert(hwnd_at(sessions, k) == hwnd);
            }
        }
        if has_window(sessions, hwnd) {
            let k = place_of(sessions, hwnd);
            assert(hwnd_at(after, k) == hwnd);
        }
    }
    assert forall|hwnd: isize| has_window(after, hwnd) implies #[trigger] by_window(after)[hwnd]
        == by_window(sessions).insert(session@.hwnd, session@)[hwnd] by {
        let k = place_of(after, hwnd);
        lemma_place(after, k);
        if k < last {
            assert(hwnd_at(sessions, k) == hwnd);
            lemma_place(sessions, k);
        }
    }
    assert(by_window(after) =~= by_window(sessions).insert(session@.hwnd, session@));
}

/// Taking the session at place `i` out takes its window out of the map.
proof fn lemma_remove<F, T, B>(sessions: Seq<MountainApp<F, T, B>>, i: int)
    requires
        one_session_each(sessions),
        0 <= i < sessions.len(),
    ensures
        one_session_each(sessions.remove(i)),
        !has_window(sessions.remove(i), sessions[i]@.hwnd),
        by_window(sessions.remove(i)) == by_window(sessions).remove(sessions[i]@.hwnd),
{
    let after = sessions.remove(i);
    let gone = sessions[i]@.hwnd;
    assert forall|a: int| 0 <= a < after.len() implies #[trigger] hwnd_at(after, a) == hwnd_at(
        sessions,
        if a < i {
            a
        } else {
            a + 1
        },
    ) by {}
    assert forall|a: int, b: int| 0 <= a < b < after.len() implies #[trigger] hwnd_at(after, a)
        != #[trigger] hwnd_at(after, b) by {
        let a0 = if a < i {
            a
        } else {
            a + 1
        };
        let b0 = if b < i {
            b
        } else {
            b + 1
        };
        assert(hwnd_at(sessions, a0) != hwnd_at(sessions, b0));
    }
    assert(one_session_each(after));
    assert forall|hwnd: isize|
        has_window(after, hwnd) == (hwnd != gone && has_window(sessions, hwnd)) by {
        if has_window(after, hwnd) {
            let k = place_of(after, hwnd);
            let k0 = if k < i {
                k
            } else {
                k + 1
            };
            assert(hwnd_at(sessions, k0) == hwnd);
            if k0 < i {
                assert(hwnd_at(sessions, k0) != hwnd_at(sessions, i));
            } else {
                assert(hwnd_at(sessions, i) != hwnd_at(sessions, k0));
            }
        }
        if hwnd != gone && has_window(sessions, hwnd) {
            let k = place_of(sessions, hwnd);
            let k1 = if k < i {
                k
            } else {
                k - 1
            };
            assert(hwnd_at(after, k1) == hwnd);
        }
    }
    assert forall|hwnd: isize| has_window(after, hwnd) implies #[trigger] by_window(after)[hwnd]
        == by_window(sessions).remove(gone)[hwnd] by {
        let k = place_of(after, hwnd);
        lemma_place(after, k);
        let k0 = if k < i {
            k
        } else {
            k + 1
        };
        assert(hwnd_at(sessions, k0) == hwnd);
        lemma_place(sessions, k0);
    }
    assert(by_window(after) =~= by_window(sessions).remove(gone));
}

/// Where no window has two sessions, there are as many windows in the map
/// as sessions in the sequence.
proof fn lemma_count<F, T, B>(sessions: Seq<MountainApp<F, T, B>>)
    requires
        one_session_each(sessions),
    ensures
        by_window(sessions).dom().finite(),
        by_window(sessions).dom().len() == sessions.len(),
    decreases sessions.len(),
{
    if sessions.len() == 0 {
        assert(by_window(sessions).dom() =~= Set::<isize>::empty());
    } else {
        let front = sessions.drop_last();
        let last = sessions.last();
        let at = sessions.len() - 1;
        assert forall|a: int, b: int| 0 <= a < b < front.len() implies #[trigger] hwnd_at(front, a)
            != #[trigger] hwnd_at(front, b) by {
            assert(hwnd_at(sessions, a) != hwnd_at(sessions, b));
        }
        assert(one_session_each(front));
        if has_window(front, last@.hwnd) {
            let k = place_of(front, last@.hwnd);
            assert(hwnd_at(sessions, k) != hwnd_at(sessions, at));
        }
        lemma_push(front, last);
        assert(front.push(last) =~= sessions);
        lemma_count(front);
        assert(by_window(sessions).dom() =~= by_window(front).dom().insert(last@.hwnd));
    }
}

impl<F, T, B> View for WindowShell<F, T, B> {
    type V = Map<isize, SessionView<F, T, B>>;

    closed spec fn view(&self) -> Map<isize, SessionView<F, T, B>> {
        by_window(self.sessions@)
    }
}

impl<F, T, B> WindowShell<F, T, B> {
    /// No window has two sessions, and each session is well formed.
    pub closed spec fn well_formed(&self) -> bool {
        one_session_each(self.sessions@)
    }

    /// A shell without windows.
    pub fn new() -> (shell: Self)
        ensures
            shell.well_formed(),
            shell@ == Map::<isize, SessionView<F, T, B>>::empty(),
    {
        let shell = WindowShell { sessions: Vec::new() };
        assert(shell@ =~= Map::<isize, SessionView<F, T, B>>::empty());
        shell
    }

    /// The place of the session of window `hwnd`, where there is one.
    fn find(&self, hwnd: isize) -> (place: Option<usize>)
        requires
            self.well_formed(),
        ensures
            match place {
                Some(i) => i < self.sessions@.len() && hwnd_at(self.sessions@, i as int) == hwnd
                    && self@.contains_key(hwnd) && self@[hwnd] == self.sessions@[i as int]@,
                None => !has_window(self.sessions@, hwnd) && !self@.contains_key(hwnd),
            },
    {
        let mut i: usize = 0;
        while i < self.sessions.len()
            invariant
                i <= self.sessions@.len(),
                self.well_formed(),
                forall|k: int| 0 <= k < i ==> #[trigger] hwnd_at(self.sessions@, k) != hwnd,
            decreases self.sessions@.len() - i,
        {
            if self.sessions[i].hwnd() == hwnd {
                proof {
                    lemma_place(self.sessions@, i as int);
                }
                return Some(i);
            }
            i = i + 1;
        }
        None
    }

    /// The number of windows that have a session.
    pub fn len(&self) -> (n: usize)
        requires
            self.well_formed(),
        ensures
            self@.dom().finite(),
            n == self@.dom().len(),
    {
        proof {
            lemma_count(self.sessions@);
        }
        self.sessions.len()
    }

    /// Whether window `hwnd` has a session.
    pub fn contains(&self, hwnd: isize) -> (found: bool)
        requires
            self.well_formed(),
        ensures
            found == self@.contains_key(hwnd),
    {
        self.find(hwnd).is_some()
    }

    /// The session of window `hwnd`, where it has one.
    pub fn session(&self, hwnd: isize) -> (session: Option<&MountainApp<F, T, B>>)
        requires
            self.well_formed(),
        ensures
            match session {
                Some(found) => self@.contains_key(hwnd) && found@ == self@[hwnd]
                    && found.well_formed(),
                None => !self@.contains_key(hwnd),
            },
    {
        match self.find(hwnd) {
            Some(i) => Some(&self.sessions[i]),
            None => None,
        }
    }

    /// Window `hwnd` was created: makes its session from the outcome of
    /// creating the factory of the drawing device, and keeps it. Without a
    /// factory nothing changes and the failure is handed on. A session that
    /// the window had before is released first.
    pub fn create(&mut self, hwnd: isize, factory: Result<F, DeviceError>) -> (made: Result<
        (),
        DeviceError,
    >)
        requires
            old(self).well_formed(),
        ensures
            final(self).well_formed(),
            match factory {
                Ok(device) => made is Ok && final(self)@ == old(self)@.insert(
                    hwnd,
                    SessionView::<F, T, B> {
                        hwnd,
                        factory: device,
                        render_target: None,
                        brush_set: None,
                        pending: Pending::Nothing,
                    },
                ),
                Err(failure) => made == Err::<(), DeviceError>(failure) && final(self)@ == old(
                    self,
                )@,
            },
    {
        match MountainApp::new(hwnd, factory) {
            Ok(session) => {
                let released = self.destroy(hwnd);
                proof {
                    lemma_push(self.sessions@, session);
                    assert(old(self)@.remove(hwnd).insert(hwnd, session@) =~= old(self)@.insert(
                        hwnd,
                        session@,
                    ));
                }
                self.sessions.push(session);
                Ok(())
            },
            Err(failure) => Err(failure),
        }
    }

    /// Window `hwnd` was destroyed: takes its session out of the shell and
    /// hands it to the caller, who releases it by dropping it. A window
    /// without a session changes nothing.
    pub fn destroy(&mut self, hwnd: isize) -> (released: Option<MountainApp<F, T, B>>)
        requires
            old(self).well_formed(),
        ensures
            final(self).well_formed(),
            final(self)@ == old(self)@.remove(hwnd),
            !final(self)@.contains_key(hwnd),
            match released {
                Some(session) => old(self)@.contains_key(hwnd) && session@ == old(self)@[hwnd]
                    && session.well_formed(),
                None => !old(self)@.contains_key(hwnd),
            },
    {
        match self.find(hwnd) {
            Some(i) => {
                proof {
                    lemma_remove(self.sessions@, i as int);
                }
                let session = self.sessions.remove(i);
                Some(session)
            },
            None => {
                assert(old(self)@.remove(hwnd) =~= old(self)@);
                None
            },
        }
    }

    /// Hands an event of window `hwnd` to its session and answers with the
    /// session's action. Where the window has no session, or its session
    /// does not accept the event, the event is dropped and nothing changes.
    /// No other window's session is touched.
    pub fn step(&mut self, hwnd: isize, event: Event<T, B>) -> (action: Option<Action>)
        requires
            old(self).well_formed(),
        ensures
            final(self).well_formed(),
            old(self)@.contains_key(hwnd) && old(self)@[hwnd].accepts(event) ==> action == Some(
                old(self)@[hwnd].next(event).1,
            ) && final(self)@ == old(self)@.insert(hwnd, old(self)@[hwnd].next(event).0),
            !(old(self)@.contains_key(hwnd) && old(self)@[hwnd].accepts(event)) ==> action is None
                && final(self)@ == old(self)@,
    {
        match self.find(hwnd) {
            Some(i) => {
                let mut session = self.sessions.remove(i);
                proof {
                    lemma_remove(old(self).sessions@, i as int);
                }
                let action = session.step(event);
                proof {
                    lemma_push(self.sessions@, session);
                    assert(old(self)@.remove(hwnd).insert(hwnd, session@) =~= old(self)@.insert(
                        hwnd,
                        session@,
                    ));
                    if !old(self)@[hwnd].accepts(event) {
                        assert(old(self)@.insert(hwnd, old(self)@[hwnd]) =~= old(self)@);
                    }
                }
                self.sessions.push(session);
                action
            },
            None => None,
        }
    }
}

} // verus!
