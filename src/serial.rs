use vstd::prelude::*;

verus! {

/// Number of data bits in one serial frame.
#[derive(Clone, Copy, Debug, PartialEq, Eq, Structural)]
pub enum DataBits {
    Five,
    Six,
    Seven,
    Eight,
}

/// Number of stop bits that close one serial frame.
#[derive(Clone, Copy, Debug, PartialEq, Eq, Structural)]
pub enum StopBits {
    One,
    Two,
}

/// Parity bit of a serial frame, when one is sent.
#[derive(Clone, Copy, Debug, PartialEq, Eq, Structural)]
pub enum Parity {
    Odd,
    Even,
}

impl DataBits {
    pub open spec fn count_spec(self) -> nat {
        match self {
            DataBits::Five => 5,
            DataBits::Six => 6,
            DataBits::Seven => 7,
            DataBits::Eight => 8,
        }
    }

    /// The number of data bits.
    pub fn count(&self) -> (r: u32)
        ensures
            r == self.count_spec(),
    {
        match self {
            DataBits::Five => 5,
            DataBits::Six => 6,
            DataBits::Seven => 7,
            DataBits::Eight => 8,
        }
    }
}

impl StopBits {
    pub open spec fn count_spec(self) -> nat {
        match self {
            StopBits::One => 1,
            StopBits::Two => 2,
        }
    }

    /// The number of stop bits.
    pub fn count(&self) -> (r: u32)
        ensures
            r == self.count_spec(),
    {
        match self {
            StopBits::One => 1,
            StopBits::Two => 2,
        }
    }
}

/// The line settings of the serial port.
#[derive(Clone, Copy, Debug, PartialEq, Eq, Structural)]
pub struct UartSettings {
    pub baud_hz: u32,
    pub data_bits: DataBits,
    pub parity: Option<Parity>,
    pub stop_bits: StopBits,
}

/// Microseconds in one second.
pub const MICROS_PER_SEC: u64 = 1_000_000;

impl UartSettings {
    /// The greeting port: 115,200 baud, eight data bits, no parity, one stop bit.
    pub fn standard() -> (r: UartSettings)
        ensures
            r.baud_hz == 115_200,
            r.data_bits == DataBits::Eight,
            r.parity is None,
            r.stop_bits == StopBits::One,
    {
        UartSettings {
            baud_hz: 115_200,
            data_bits: DataBits::Eight,
            parity: None,
            stop_bits: StopBits::One,
        }
    }

    /// Bits on the line for one byte: a start bit, the data bits, the
    /// parity bit if any, and the stop bits.
    pub open spec fn frame_bits_spec(self) -> nat {
        1 + self.data_bits.count_spec() + (if self.parity is Some { 1nat } else { 0nat })
            + self.stop_bits.count_spec()
    }

    /// Bits on the line for one byte.
    pub fn frame_bits(&self) -> (r: u32)
        ensures
            r == self.frame_bits_spec(),
            7 <= r <= 12,
    {
        let parity_bits: u32 = if self.parity.is_some() { 1 } else { 0 };
        1 + self.data_bits.count() + parity_bits + self.stop_bits.count()
    }

    /// The bits that `len` bytes put on the line.
    pub open spec fn line_bits(self, len: nat) -> nat {
        len * self.frame_bits_spec()
    }

    /// Whether `t` whole microseconds are enough to send `len` bytes.
    pub open spec fn covers(self, len: nat, t: nat) -> bool {
        t * self.baud_hz >= self.line_bits(len) * 1_000_000
    }

    /// The least whole number of microseconds in which `len` bytes can be
    /// sent; `None` where the baud rate is zero and nothing is ever sent.
    pub fn wire_time_us(&self, len: u32) -> (r: Option<u64>)
        ensures
            r is None <==> self.baud_hz == 0,
            r matches Some(t) ==> self.covers(len as nat, t as nat)
                && (t == 0 || !self.covers(len as nat, (t - 1) as nat)),
    {
        if self.baud_hz == 0 {
            return None;
        }
        let frame: u64 = self.frame_bits() as u64;
        assert(len as u64 * frame <= 12 * 0xffff_ffffu64) by (nonlinear_arith)
            requires
                frame <= 12,
                len <= 0xffff_ffffu32,
        ;
        let bits: u64 = len as u64 * frame;
        let need: u64 = bits * MICROS_PER_SEC;
        let baud: u64 = self.baud_hz as u64;
        let t: u64 = need / baud + if need % baud == 0 { 0 } else { 1 };
        proof {
            lemma_least_cover(need as int, baud as int, t as int);
        }
        Some(t)
    }
}

/// `t` is the ceiling of `need / baud`: the least `t` with `t * baud >= need`.
proof fn lemma_least_cover(need: int, baud: int, t: int)
    requires
        need >= 0,
        baud > 0,
        t == need / baud + if need % baud == 0 { 0int } else { 1int },
    ensures
        t * baud >= need,
        t == 0 || (t - 1) * baud < need,
{
    let q = need / baud;
    let m = need % baud;
    assert(need == q * baud + m && 0 <= m < baud) by (nonlinear_arith)
        requires
            baud > 0,
            q == need / baud,
            m == need % baud,
    ;
    assert(q >= 0) by (nonlinear_arith)
        requires
            need >= 0,
            baud > 0,
            q == need / baud,
    ;
    if m == 0 {
        assert(t * baud >= need);
        assert(t == 0 || (t - 1) * baud < need) by (nonlinear_arith)
            requires
                t == q,
                need == q * baud,
                baud > 0,
        ;
    } else {
        assert(t * baud >= need) by (nonlinear_arith)
            requires
                t == q + 1,
                need == q * baud + m,
                m < baud,
        ;
        assert((t - 1) * baud < need) by (nonlinear_arith)
            requires
                t == q + 1,
                need == q * baud + m,
                m > 0,
        ;
    }
}

} // verus!
