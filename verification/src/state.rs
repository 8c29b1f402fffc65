use vstd::prelude::*;

verus! {

/// Mathematical view of the bridge state: the last reported attendance
/// count and the characters of the last reported status message.
pub ghost struct StateView {
    pub n: u8,
    pub msg: Seq<char>,
}

/// The two values the bridge keeps in memory: the latest attendance count
/// and the latest status message. The count starts at 0 and the message
/// starts empty; each is overwritten whole by the subscription loop.
pub struct SharedData {
    pub n: u8,
    pub msg: String,
}

impl View for SharedData {
    type V = StateView;

    open spec fn view(&self) -> StateView {
        StateView { n: self.n, msg: self.msg@ }
    }
}

/// A pair of values captured at a single read request. It is a plain copy:
/// it does not change when the shared state later does.
pub struct Snapshot {
    pub n: u8,
    pub msg: String,
}

impl View for Snapshot {
    type V = StateView;

    open spec fn view(&self) -> StateView {
        StateView { n: self.n, msg: self.msg@ }
    }
}

impl SharedData {
    /// Fresh state: count 0, empty message.
    pub fn new() -> (r: SharedData)
        ensures
            r@.n == 0,
            r@.msg == Seq::<char>::empty(),
    {
        SharedData { n: 0, msg: String::new() }
    }

    /// Current attendance count.
    pub fn get_count(&self) -> (r: u8)
        ensures
            r == self@.n,
    {
        self.n
    }

    /// Overwrite the attendance count; the message is untouched.
    pub fn set_count(&mut self, v: u8)
        ensures
            final(self)@.n == v,
            final(self)@.msg == old(self)@.msg,
    {
        self.n = v;
    }

    /// Copy of the current status message.
    pub fn get_message(&self) -> (r: String)
        ensures
            r@ == self@.msg,
    {
        self.msg.clone()
    }

    /// Overwrite the status message; the count is untouched.
    pub fn set_message(&mut self, v: String)
        ensures
            final(self)@.msg == v@,
            final(self)@.n == old(self)@.n,
    {
        self.msg = v;
    }

    /// One self-consistent pair for a single read request: exactly the
    /// values held at the moment of the call.
    pub fn snapshot(&self) -> (r: Snapshot)
        ensures
            r@ == self@,
    {
        Snapshot { n: self.n, msg: self.msg.clone() }
    }
}

impl Default for SharedData {
    /// Same values as `SharedData::new`: count 0, empty message.
    fn default() -> (r: SharedData)
        ensures
            r@.n == 0,
            r@.msg == Seq::<char>::empty(),
    {
        SharedData::new()
    }
}

} // verus!
