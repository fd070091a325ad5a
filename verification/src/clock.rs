//! The progress clock itself: a named counter whose `size` stays in
//! [2, 12] and whose `ticks` stay in [0, size], with a fixed polarity
//! and a fixed unique identifier.

use vstd::prelude::*;
use vstd::string::StringExecFns;

verus! {

use crate::codec::{spec_encode, spec_decode, valid_encoding, digit_str, char_to_digit};

/// The one failure this library knows: text handed to `from_string`
/// that is not a valid encoding of a clock.
#[derive(Clone, Copy, Debug, PartialEq, Eq, Structural)]
pub enum ClockError {
    InvalidEncoding,
}

/// Clamp `v` into the closed range [lo, hi].
pub open spec fn clamp(v: int, lo: int, hi: int) -> int {
    if v < lo {
        lo
    } else if v > hi {
        hi
    } else {
        v
    }
}

/// The mathematical model of a clock: its observable field values.
#[verifier::ext_equal]
pub struct ClockModel {
    pub name: Seq<char>,
    pub size: int,
    pub ticks: int,
    pub positive: bool,
    pub id: Seq<char>,
}

impl ClockModel {
    /// The clock invariant: `size` in [2, 12], `ticks` in [0, size],
    /// and the identifier in its fixed 36-character form.
    pub open spec fn wf(self) -> bool {
        &&& 2 <= self.size <= 12
        &&& 0 <= self.ticks <= self.size
        &&& self.id.len() == 36
    }

    /// The model after setting the tick count to `amount`, clamped.
    pub open spec fn with_ticks(self, amount: int) -> ClockModel {
        ClockModel { ticks: clamp(amount, 0, self.size), ..self }
    }

    /// The model after growing the size by two, clamped.
    pub open spec fn enlarged(self) -> ClockModel {
        ClockModel { size: clamp(self.size + 2, 2, 12), ..self }
    }

    /// The model after shrinking the size by two, clamped, pulling the
    /// tick count down to the new size if it would exceed it.
    pub open spec fn reduced(self) -> ClockModel {
        let s = clamp(self.size - 2, 2, 12);
        ClockModel {
            size: s,
            ticks: if self.ticks > s {
                s
            } else {
                self.ticks
            },
            ..self
        }
    }

    /// The model after one forward tick.
    pub open spec fn ticked(self) -> ClockModel {
        self.with_ticks(self.ticks + 1)
    }

    /// The model after one backward tick.
    pub open spec fn unticked(self) -> ClockModel {
        self.with_ticks(self.ticks - 1)
    }

    /// The model after a click on segment `clicked`: a click away from
    /// the current tick count jumps there (clamped); a click on the
    /// current edge retracts by one.
    pub open spec fn clicked(self, clicked: int) -> ClockModel {
        if clicked != self.ticks {
            self.with_ticks(clicked)
        } else {
            self.unticked()
        }
    }

    /// The model after replacing the name.
    pub open spec fn renamed(self, name: Seq<char>) -> ClockModel {
        ClockModel { name, ..self }
    }
}

/// A bounded counter with a mutable name, a fixed polarity and a fixed
/// unique identifier.
pub struct ProgressClock {
    name: String,
    size: i32,
    ticks: i32,
    positive: bool,
    id: String,
}

impl View for ProgressClock {
    type V = ClockModel;

    closed spec fn view(&self) -> ClockModel {
        ClockModel {
            name: self.name@,
            size: self.size as int,
            ticks: self.ticks as int,
            positive: self.positive,
            id: self.id@,
        }
    }
}

/// Relies on uuid::Uuid::new_v4 and its display form: a fresh
/// version-4 UUID rendered as 36 hyphenated hexadecimal characters.
/// The value itself is random, so nothing more is stated of it.
#[verifier::external_body]
fn fresh_id() -> (r: String)
    ensures
        r@.len() == 36,
{
    uuid::Uuid::new_v4().to_string()
}

impl ProgressClock {
    /// The clock invariant, on the model of this value.
    pub open spec fn wf(self) -> bool {
        self@.wf()
    }

    /// A fresh clock: the given name and polarity, size 4, no ticks,
    /// and a freshly generated identifier.
    pub fn new(name: &str, positive: bool) -> (c: ProgressClock)
        ensures
            c.wf(),
            c@.name == name@,
            c@.size == 4,
            c@.ticks == 0,
            c@.positive == positive,
            c@.id.len() == 36,
    {
        ProgressClock {
            name: String::from_str(name),
            size: 4,
            ticks: 0,
            positive,
            id: fresh_id(),
        }
    }

    pub fn get_name(&self) -> (r: String)
        ensures
            r@ == self@.name,
    {
        self.name.clone()
    }

    pub fn get_size(&self) -> (r: i32)
        ensures
            r as int == self@.size,
    {
        self.size
    }

    pub fn get_ticks(&self) -> (r: i32)
        ensures
            r as int == self@.ticks,
    {
        self.ticks
    }

    pub fn is_positive(&self) -> (r: bool)
        ensures
            r == self@.positive,
    {
        self.positive
    }

    pub fn get_id(&self) -> (r: String)
        ensures
            r@ == self@.id,
    {
        self.id.clone()
    }

    /// Replace the name; every other field is kept.
    pub fn set_name(&mut self, name: &str)
        requires
            old(self).wf(),
        ensures
            final(self)@ == old(self)@.renamed(name@),
            final(self).wf(),
    {
        self.name = String::from_str(name);
    }

    /// Grow the size by two, clamped to [2, 12]. Ticks are untouched.
    pub fn enlarge(&mut self)
        requires
            old(self).wf(),
        ensures
            final(self)@ == old(self)@.enlarged(),
            final(self).wf(),
    {
        let mut s = self.size + 2;
        if s < 2 {
            s = 2;
        }
        if s > 12 {
            s = 12;
        }
        self.size = s;
    }

    /// Shrink the size by two, clamped to [2, 12]; if the tick count
    /// then exceeds the size, pull it down to the size.
    pub fn reduce(&mut self)
        requires
            old(self).wf(),
        ensures
            final(self)@ == old(self)@.reduced(),
            final(self).wf(),
    {
        let mut s = self.size - 2;
        if s < 2 {
            s = 2;
        }
        if s > 12 {
            s = 12;
        }
        self.size = s;
        if self.ticks > self.size {
            self.ticks = self.size;
        }
    }

    /// Set the tick count to `amount`, clamped to [0, size]: the one
    /// point through which every tick mutation flows.
    pub fn set_tick(&mut self, amount: i32)
        requires
            old(self).wf(),
        ensures
            final(self)@ == old(self)@.with_ticks(amount as int),
            final(self).wf(),
    {
        let mut t = amount;
        if t < 0 {
            t = 0;
        }
        if t > self.size {
            t = self.size;
        }
        self.ticks = t;
    }

    /// One tick forward, clamped at the size.
    pub fn tick(&mut self)
        requires
            old(self).wf(),
        ensures
            final(self)@ == old(self)@.ticked(),
            final(self).wf(),
    {
        let t = self.ticks + 1;
        self.set_tick(t);
    }

    /// One tick backward, clamped at zero.
    pub fn untick(&mut self)
        requires
            old(self).wf(),
        ensures
            final(self)@ == old(self)@.unticked(),
            final(self).wf(),
    {
        let t = self.ticks - 1;
        self.set_tick(t);
    }

    /// Translate a click on segment `clicked`: a click away from the
    /// current tick count jumps there (clamped); a click on the
    /// current edge retracts by one.
    pub fn process_click(&mut self, clicked: i32)
        requires
            old(self).wf(),
        ensures
            final(self)@ == old(self)@.clicked(clicked as int),
            final(self).wf(),
    {
        if clicked != self.ticks {
            self.set_tick(clicked);
        } else {
            self.untick();
        }
    }

    /// Encode the whole clock state as text. The encoding is the
    /// library's own: `spec_encode` says exactly what it holds, and
    /// `from_string` reads it back.
    pub fn to_string(&self) -> (r: String)
        requires
            self.wf(),
        ensures
            r@ == spec_encode(self@),
    {
        let mut out = String::new();
        if self.size >= 10 {
            out.append(digit_str(1));
            out.append(digit_str(self.size - 10));
        } else {
            out.append(digit_str(0));
            out.append(digit_str(self.size));
        }
        if self.ticks >= 10 {
            out.append(digit_str(1));
            out.append(digit_str(self.ticks - 10));
        } else {
            out.append(digit_str(0));
            out.append(digit_str(self.ticks));
        }
        if self.positive {
            out.append("T");
        } else {
            out.append("F");
        }
        out.append(self.id.as_str());
        out.append(self.name.as_str());
        proof {
            reveal_strlit("T");
            reveal_strlit("F");
            assert(out@ =~= spec_encode(self@));
        }
        out
    }

    /// Decode a clock from its textual encoding. Returns the clock the
    /// text encodes, or `InvalidEncoding` exactly when the text is not
    /// a valid encoding.
    pub fn from_string(s: String) -> (r: Result<ProgressClock, ClockError>)
        ensures
            match r {
                Ok(c) => {
                    &&& valid_encoding(s@)
                    &&& spec_decode(s@) == Some(c@)
                    &&& c.wf()
                },
                Err(e) => {
                    &&& !valid_encoding(s@)
                    &&& e == ClockError::InvalidEncoding
                },
            },
    {
        let st = s.as_str();
        let n = st.unicode_len();
        if n < 41 {
            return Err(ClockError::InvalidEncoding);
        }
        let d_size_tens = char_to_digit(st.get_char(0));
        let d_size_units = char_to_digit(st.get_char(1));
        let d_ticks_tens = char_to_digit(st.get_char(2));
        let d_ticks_units = char_to_digit(st.get_char(3));
        if d_size_tens < 0 || d_size_units < 0 || d_ticks_tens < 0 || d_ticks_units < 0 {
            return Err(ClockError::InvalidEncoding);
        }
        let size = 10 * d_size_tens + d_size_units;
        let ticks = 10 * d_ticks_tens + d_ticks_units;
        if size < 2 || size > 12 {
            return Err(ClockError::InvalidEncoding);
        }
        if ticks > size {
            return Err(ClockError::InvalidEncoding);
        }
        let marker = st.get_char(4);
        let positive = match marker {
            'T' => true,
            'F' => false,
            _ => {
                return Err(ClockError::InvalidEncoding);
            },
        };
        let id = String::from_str(st.substring_char(5, 41));
        let name = String::from_str(st.substring_char(41, n));
        let c = ProgressClock { name, size, ticks, positive, id };
        proof {
            assert(c@ =~= spec_decode(s@)->Some_0);
        }
        Ok(c)
    }

    /// The display colour for this clock's polarity: one fixed code
    /// for positive clocks, another for negative ones.
    pub fn get_tick_color(&self) -> (r: String)
        ensures
            r@ == spec_tick_color(self@.positive),
    {
        if self.positive {
            String::from_str("#4caf50")
        } else {
            String::from_str("#f44336")
        }
    }
}

/// The fixed colour code selected by a clock's polarity.
pub open spec fn spec_tick_color(positive: bool) -> Seq<char> {
    if positive {
        "#4caf50"@
    } else {
        "#f44336"@
    }
}

/// Law: for every integer `amount`, setting the tick count lands in
/// [0, size] and preserves the invariant.
pub proof fn lemma_set_tick_in_bounds(m: ClockModel, amount: int)
    requires
        m.wf(),
    ensures
        m.with_ticks(amount).wf(),
        0 <= m.with_ticks(amount).ticks <= m.with_ticks(amount).size,
{
}

/// Law: enlarging and then reducing preserves the invariant, and the
/// size comes back unchanged exactly when the enlargement was not
/// clamped at the ceiling, that is when the size was at most 10.
pub proof fn lemma_enlarge_then_reduce(m: ClockModel)
    requires
        m.wf(),
    ensures
        m.enlarged().wf(),
        m.enlarged().reduced().wf(),
        m.enlarged().reduced().size == if m.size <= 10 {
            m.size
        } else {
            10
        },
        m.enlarged().reduced().size == m.size <==> m.size <= 10,
{
}

/// Law: reducing never leaves the tick count above the size, and
/// preserves the invariant.
pub proof fn lemma_reduce_keeps_ticks_bounded(m: ClockModel)
    requires
        m.wf(),
    ensures
        m.reduced().wf(),
        m.reduced().ticks <= m.reduced().size,
{
}

/// Law: a tick followed by an untick leaves the tick count unchanged,
/// unless the tick was clamped at the size, in which case the pair
/// retracts the count by one.
pub proof fn lemma_tick_then_untick(m: ClockModel)
    requires
        m.wf(),
    ensures
        m.ticked().unticked().ticks == if m.ticks < m.size {
            m.ticks
        } else {
            m.size - 1
        },
        m.ticks < m.size ==> m.ticked().unticked().ticks == m.ticks,
{
}

/// Law: an untick followed by a tick leaves the tick count unchanged,
/// unless the untick was clamped at zero, in which case the pair
/// advances the count to one.
pub proof fn lemma_untick_then_tick(m: ClockModel)
    requires
        m.wf(),
    ensures
        m.unticked().ticked().ticks == if m.ticks > 0 {
            m.ticks
        } else {
            1
        },
        m.ticks > 0 ==> m.unticked().ticked().ticks == m.ticks,
{
}

/// Law: a click on the current edge retracts the tick count by one,
/// or leaves it at zero if it already is zero.
pub proof fn lemma_click_on_edge(m: ClockModel)
    requires
        m.wf(),
    ensures
        m.clicked(m.ticks).ticks == if m.ticks == 0 {
            0
        } else {
            m.ticks - 1
        },
{
}

/// Law: a click anywhere but the current edge sets the tick count to
/// the clicked value, clamped to [0, size].
pub proof fn lemma_click_elsewhere(m: ClockModel, clicked: int)
    requires
        m.wf(),
        clicked != m.ticks,
    ensures
        m.clicked(clicked).ticks == clamp(clicked, 0, m.size),
{
}

} // verus!
