//! The status line the base station reports on its serial port.
use vstd::prelude::*;

verus! {

/// The base station's status: its IP address once it has one.
pub struct Status {
    pub ip: Option<[u8; 4]>,
}

/// The decimal digits of a byte, without leading zeros.
pub open spec fn spec_decimal(v: u8) -> Seq<u8> {
    if v >= 100 {
        seq![(48 + v / 100) as u8, (48 + (v / 10) % 10) as u8, (48 + v % 10) as u8]
    } else if v >= 10 {
        seq![(48 + v / 10) as u8, (48 + v % 10) as u8]
    } else {
        seq![(48 + v) as u8]
    }
}

/// The status text: `IP: ` then the dotted address or `None`, then CR LF as `\n\r`.
pub open spec fn spec_status_text(ip: Option<[u8; 4]>) -> Seq<u8> {
    let prefix = seq![73u8, 80u8, 58u8, 32u8];
    let end = seq![10u8, 13u8];
    match ip {
        None => prefix + seq![78u8, 111u8, 110u8, 101u8] + end,
        Some(a) => prefix + spec_decimal(a[0]) + seq![46u8] + spec_decimal(a[1]) + seq![46u8]
            + spec_decimal(a[2]) + seq![46u8] + spec_decimal(a[3]) + end,
    }
}

/// Appends the decimal digits of `v`.
fn push_decimal(out: &mut Vec<u8>, v: u8)
    ensures final(out)@ == old(out)@ + spec_decimal(v),
{
    if v >= 100 {
        out.push(48 + v / 100);
        out.push(48 + (v / 10) % 10);
        out.push(48 + v % 10);
    } else if v >= 10 {
        out.push(48 + v / 10);
        out.push(48 + v % 10);
    } else {
        out.push(48 + v);
    }
    assert(out@ =~= old(out)@ + spec_decimal(v));
}

impl Default for Status {
    fn default() -> (r: Self)
        ensures r.ip is None,
    {
        Status { ip: None }
    }
}

impl Status {
    /// The status line, at most 32 bytes, that is written to the serial port while
    /// a terminal is connected (DTR set).
    pub fn text(&self) -> (r: Vec<u8>)
        ensures
            r@ == spec_status_text(self.ip),
            r@.len() <= 32,
    {
        let mut out: Vec<u8> = Vec::new();
        out.push(73);
        out.push(80);
        out.push(58);
        out.push(32);
        match self.ip {
            None => {
                out.push(78);
                out.push(111);
                out.push(110);
                out.push(101);
            },
            Some(a) => {
                push_decimal(&mut out, a[0]);
                out.push(46);
                push_decimal(&mut out, a[1]);
                out.push(46);
                push_decimal(&mut out, a[2]);
                out.push(46);
                push_decimal(&mut out, a[3]);
            },
        }
        out.push(10);
        out.push(13);
        assert(out@ =~= spec_status_text(self.ip));
        out
    }
}

} // verus!
