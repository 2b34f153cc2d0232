use vstd::prelude::*;

verus! {

/// The bounds on one HTTP call, in seconds: the whole call, establishing
/// the connection, and reading the response.
pub struct Timeout {
    total: u64,
    connect: u64,
    read: u64,
}

impl View for Timeout {
    type V = (u64, u64, u64);

    closed spec fn view(&self) -> (u64, u64, u64) {
        (self.total, self.connect, self.read)
    }
}

/// The default bound on a whole call, in seconds.
pub fn total() -> (r: u64)
    ensures
        r == 300u64,
{
    300
}

/// The default bound on establishing a connection, in seconds.
pub fn connect() -> (r: u64)
    ensures
        r == 120u64,
{
    120
}

/// The default bound on reading a response, in seconds.
pub fn read() -> (r: u64)
    ensures
        r == 30u64,
{
    30
}

impl Timeout {
    /// A timeout with the given bounds, total then connect then read.
    pub fn new(total: u64, connect: u64, read: u64) -> (r: Self)
        ensures
            r@ == (total, connect, read),
    {
        Self { total, connect, read }
    }

    /// All three bounds, total then connect then read.
    pub fn all(&self) -> (r: (u64, u64, u64))
        ensures
            r == self@,
    {
        (self.total, self.connect, self.read)
    }
}

impl Default for Timeout {
    /// The defaults: 300 seconds in total, 120 to connect, 30 to read.
    fn default() -> (r: Self)
        ensures
            r@ == (300u64, 120u64, 30u64),
    {
        Self { total: total(), connect: connect(), read: read() }
    }
}

} // verus!
