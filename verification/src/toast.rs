//! The notice that the browser client shows after an action: shown at once,
//! closed by hand, or cleared by the timer that its showing started, unless
//! a later notice replaced it in the meantime.

use vstd::prelude::*;

verus! {

/// Whether a notice reports a success or an error.
#[derive(Debug, Clone, Copy, PartialEq, Eq)]
pub enum ToastKind {
    Success,
    Error,
}

/// A notice: its message and kind.
#[derive(Debug, Clone, PartialEq)]
pub struct Toast {
    pub message: String,
    pub kind: ToastKind,
}

/// The notice on screen, if any, and the number of notices shown so far;
/// each showing is known by that number, and its timer by it too.
#[derive(Debug, Clone)]
pub struct ToastState {
    toast: Option<Toast>,
    counter: u32,
}

/// The abstract state: the message and kind on screen, and the count.
pub struct ToastView {
    pub shown: Option<(Seq<char>, ToastKind)>,
    pub counter: u32,
}

impl View for ToastState {
    type V = ToastView;

    closed spec fn view(&self) -> ToastView {
        ToastView {
            shown: match self.toast {
                Some(t) => Some((t.message@, t.kind)),
                None => None,
            },
            counter: self.counter,
        }
    }
}

/// Showing a notice: it goes on screen and the count goes up by one.
pub open spec fn after_show(s: ToastView, message: Seq<char>, kind: ToastKind) -> ToastView {
    ToastView { shown: Some((message, kind)), counter: (s.counter + 1) as u32 }
}

/// The timer of showing `id` going off: it clears the notice only when no
/// notice was shown after it.
pub open spec fn after_expire(s: ToastView, id: u32) -> ToastView {
    if s.counter == id {
        ToastView { shown: None, counter: s.counter }
    } else {
        s
    }
}

/// Closing the notice by hand.
pub open spec fn after_dismiss(s: ToastView) -> ToastView {
    ToastView { shown: None, counter: s.counter }
}

impl ToastState {
    /// No notice, none shown yet.
    pub fn new() -> (res: Self)
        ensures
            res@.shown is None,
            res@.counter == 0,
    {
        ToastState { toast: None, counter: 0 }
    }

    fn show(&mut self, message: String, kind: ToastKind) -> (id: u32)
        requires
            old(self)@.counter < u32::MAX,
        ensures
            final(self)@ == after_show(old(self)@, message@, kind),
            id == final(self)@.counter,
    {
        let id = self.counter + 1;
        self.counter = id;
        self.toast = Some(Toast { message, kind });
        id
    }

    /// Shows a success notice; the result names the showing, for its timer.
    pub fn success(&mut self, message: String) -> (id: u32)
        requires
            old(self)@.counter < u32::MAX,
        ensures
            final(self)@ == after_show(old(self)@, message@, ToastKind::Success),
            id == final(self)@.counter,
    {
        self.show(message, ToastKind::Success)
    }

    /// Shows an error notice; the result names the showing, for its timer.
    pub fn error(&mut self, message: String) -> (id: u32)
        requires
            old(self)@.counter < u32::MAX,
        ensures
            final(self)@ == after_show(old(self)@, message@, ToastKind::Error),
            id == final(self)@.counter,
    {
        self.show(message, ToastKind::Error)
    }

    /// The timer of showing `id` went off.
    pub fn expire(&mut self, id: u32)
        ensures
            final(self)@ == after_expire(old(self)@, id),
    {
        if self.counter == id {
            self.toast = None;
        }
    }

    /// The notice was closed by hand.
    pub fn dismiss(&mut self)
        ensures
            final(self)@ == after_dismiss(old(self)@),
    {
        self.toast = None;
    }

    /// The notice on screen.
    pub fn current(&self) -> (res: Option<&Toast>)
        ensures
            match res {
                Some(t) => self@.shown == Some((t.message@, t.kind)),
                None => self@.shown is None,
            },
    {
        match &self.toast {
            Some(t) => Some(t),
            None => None,
        }
    }

    /// How many notices were shown so far.
    pub fn shown_count(&self) -> (res: u32)
        ensures
            res == self@.counter,
    {
        self.counter
    }
}

/// The style classes of a notice of the given kind.
pub fn toast_class(kind: ToastKind) -> (res: &'static str)
    ensures
        res@ == match kind {
            ToastKind::Success => "toast toast-success"@,
            ToastKind::Error => "toast toast-error"@,
        },
{
    match kind {
        ToastKind::Success => "toast toast-success",
        ToastKind::Error => "toast toast-error",
    }
}

/// A notice stays on screen until its own timer goes off, and that timer
/// clears it.
pub proof fn lemma_notice_times_out(s: ToastView, message: Seq<char>, kind: ToastKind)
    requires
        s.counter < u32::MAX,
    ensures
        after_show(s, message, kind).shown == Some((message, kind)),
        after_expire(after_show(s, message, kind), after_show(s, message, kind).counter).shown is None,
{
}

/// A notice shown after another is not cleared by the earlier one's timer.
pub proof fn lemma_later_notice_outlives_earlier_timer(
    s: ToastView,
    first: Seq<char>,
    first_kind: ToastKind,
    second: Seq<char>,
    second_kind: ToastKind,
)
    requires
        s.counter + 2 <= u32::MAX,
    ensures
        ({
            let a = after_show(s, first, first_kind);
            let b = after_show(a, second, second_kind);
            after_expire(b, a.counter) == b && b.shown == Some((second, second_kind))
        }),
{
}

} // verus!

verus! {

/// Showing puts the notice on screen and counts it; a timer clears the
/// notice only when it belongs to the latest showing, and never changes the
/// count; closing by hand clears it and keeps the count.
pub proof fn lemma_notice_transitions(s: ToastView, message: Seq<char>, kind: ToastKind, id: u32)
    requires
        s.counter < u32::MAX,
    ensures
        after_show(s, message, kind).shown == Some((message, kind)),
        after_show(s, message, kind).counter == s.counter + 1,
        id != s.counter ==> after_expire(s, id) == s,
        id == s.counter ==> after_expire(s, id).shown is None,
        after_expire(s, id).counter == s.counter,
        after_dismiss(s).shown is None,
        after_dismiss(s).counter == s.counter,
{
}

} // verus!
