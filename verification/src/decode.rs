//! What a record of the format and a table of codes have in common.

use vstd::prelude::*;
use crate::constants::ActualTyreCompound;
use crate::constants::VisualTyreCompound;
use crate::cursor::ByteCursor;
use crate::cursor::follows;
use crate::error::DecodeError;
use crate::error::FieldName;
use crate::wire::Wire;

verus! {

/// An enumeration that travels as one byte.
pub trait WireCode: Sized + Copy {
    /// The byte that stands for this variant. Where the game documents a
    /// negative number, this is the byte that spells it in two's complement.
    spec fn code(self) -> u8;

    /// The name under which a byte outside the table is reported.
    spec fn field() -> FieldName;

    /// The name under which a byte outside the table is reported.
    fn field_name() -> (f: FieldName)
        ensures
            f == Self::field(),
    ;

    /// The byte that stands for this variant.
    fn to_code(self) -> (raw: u8)
        ensures
            raw == self.code(),
    ;

    /// The variant that `raw` stands for, if there is one.
    fn from_code(raw: u8) -> (r: Option<Self>)
        ensures
            match r {
                Some(e) => e.code() == raw,
                None => forall|e: Self| #[trigger] e.code() != raw,
            },
    ;

    /// No two variants share a code.
    proof fn lemma_codes_differ(a: Self, b: Self)
        ensures
            a.code() == b.code() ==> a == b,
    ;
}

/// The variant whose code is `raw`, if there is one.
pub open spec fn of_code<E: WireCode>(raw: u8) -> Option<E> {
    if exists|e: E| e.code() == raw {
        Some(choose|e: E| e.code() == raw)
    } else {
        None
    }
}

/// `of_code` undoes `code`.
pub proof fn lemma_of_code_inverts<E: WireCode>(e: E)
    ensures
        of_code::<E>(e.code()) == Some(e),
{
    let raw = e.code();
    assert(e.code() == raw);
    E::lemma_codes_differ(e, of_code::<E>(raw)->0);
}

impl Wire {
    /// A byte out of the table of `E`.
    pub open spec fn code<E: WireCode>(self) -> (Wire, E) {
        let (w, raw) = self.u8();
        match of_code::<E>(raw) {
            Some(e) => (w, e),
            None => (w.in_range(false, E::field(), raw as int, self.pos), arbitrary()),
        }
    }

    /// A byte out of the table of `E` that is always on the wire but stored as
    /// an option.
    pub open spec fn some_code<E: WireCode>(self) -> (Wire, Option<E>) {
        let (w, e) = self.code::<E>();
        (w, Some(e))
    }

    /// A byte out of the table of `E` that is on the wire only if `present`.
    pub open spec fn code_if<E: WireCode>(self, present: bool) -> (Wire, Option<E>) {
        if present {
            self.some_code::<E>()
        } else {
            (self, None)
        }
    }

    /// Four bytes out of the table of `E`, one for each wheel.
    pub open spec fn codes4<E: WireCode>(self) -> (Wire, Option<[E; 4]>) {
        let (w, a) = self.code::<E>();
        let (w, b) = w.code::<E>();
        let (w, c) = w.code::<E>();
        let (w, d) = w.code::<E>();
        (w, Some([a, b, c, d]))
    }
}

impl<'a> ByteCursor<'a> {
    /// Reads a byte out of the table of `E`.
    pub fn read_code<E: WireCode>(&mut self) -> (r: Result<E, DecodeError>)
        ensures
            follows(r, final(self)@, old(self)@.code::<E>()),
    {
        let at: usize = self.position();
        let raw: u8 = self.read_u8()?;
        match E::from_code(raw) {
            Some(e) => {
                proof {
                    lemma_of_code_inverts(e);
                }
                Ok(e)
            },
            None => Err(DecodeError::FieldOutOfRange { field: E::field_name(), value: raw as i64, offset: at }),
        }
    }

    /// Reads a byte out of the table of `E` into an option.
    pub fn read_some_code<E: WireCode>(&mut self) -> (r: Result<Option<E>, DecodeError>)
        ensures
            follows(r, final(self)@, old(self)@.some_code::<E>()),
    {
        let e: E = self.read_code()?;
        Ok(Some(e))
    }

    /// Reads a byte out of the table of `E` if it is `present` in the format.
    pub fn read_code_if<E: WireCode>(&mut self, present: bool) -> (r: Result<Option<E>, DecodeError>)
        ensures
            follows(r, final(self)@, old(self)@.code_if::<E>(present)),
    {
        if present {
            self.read_some_code()
        } else {
            Ok(None)
        }
    }

    /// Reads four bytes out of the table of `E`, one for each wheel.
    pub fn read_codes4<E: WireCode>(&mut self) -> (r: Result<Option<[E; 4]>, DecodeError>)
        ensures
            follows(r, final(self)@, old(self)@.codes4::<E>()),
    {
        let a: E = self.read_code()?;
        let b: E = self.read_code()?;
        let c: E = self.read_code()?;
        let d: E = self.read_code()?;
        Ok(Some([a, b, c, d]))
    }
}

/// What an executable decoder returns and where it leaves its cursor, held
/// against what the format says of the same bytes. As [`follows`], for a value
/// that is compared through its view.
pub open spec fn follows_view<T: DeepView>(r: Result<T, DecodeError>, after: Wire, said: (Wire, T::V)) -> bool {
    match r {
        Ok(v) => said.0 == after && v.deep_view() == said.1,
        Err(e) => said.0 == after.fail(e),
    }
}

/// A record of the format.
pub trait Decode: Sized + DeepView {
    /// What the bytes at `w` hold, read as this record in the given format:
    /// the state behind the record and its value. If the state that comes out
    /// has failed, the value means nothing.
    spec fn decoded(w: Wire, packet_format: u16) -> (Wire, Self::V);

    /// Reads this record in the given format.
    fn decode(cursor: &mut ByteCursor, packet_format: u16) -> (r: Result<Self, DecodeError>)
        ensures
            follows_view(r, final(cursor)@, Self::decoded(old(cursor)@, packet_format)),
    ;
}

/// `n` records in a row, or none if `w` has failed.
pub open spec fn decoded_list<T: Decode>(w: Wire, n: nat, packet_format: u16) -> (Wire, Seq<T::V>)
    decreases n,
{
    if w.failed() || n == 0 {
        (w, Seq::empty())
    } else {
        let (w1, first) = T::decoded(w, packet_format);
        let (w2, rest) = decoded_list::<T>(w1, (n - 1) as nat, packet_format);
        (w2, seq![first] + rest)
    }
}

/// Reads `n` records in a row.
pub fn decode_list<T: Decode>(cursor: &mut ByteCursor, n: usize, packet_format: u16) -> (r: Result<
    Vec<T>,
    DecodeError,
>)
    ensures
        follows_view(r, final(cursor)@, decoded_list::<T>(old(cursor)@, n as nat, packet_format)),
{
    let mut out: Vec<T> = Vec::new();
    let mut i: usize = 0;
    let ghost start = cursor@;
    proof {
        assert(out.deep_view() =~= Seq::<T::V>::empty());
        assert(Seq::<T::V>::empty() + decoded_list::<T>(start, n as nat, packet_format).1
            =~= decoded_list::<T>(start, n as nat, packet_format).1);
    }
    while i < n
        invariant
            i <= n,
            start == old(cursor)@,
            out@.len() == i,
            decoded_list::<T>(start, n as nat, packet_format).0 == decoded_list::<T>(
                cursor@,
                (n - i) as nat,
                packet_format,
            ).0,
            decoded_list::<T>(start, n as nat, packet_format).1 == out.deep_view() + decoded_list::<T>(
                cursor@,
                (n - i) as nat,
                packet_format,
            ).1,
        decreases n - i,
    {
        let ghost before = cursor@;
        let ghost sofar = out.deep_view();
        match T::decode(cursor, packet_format) {
            Ok(item) => {
                out.push(item);
                proof {
                    let (w1, first) = T::decoded(before, packet_format);
                    let rest = decoded_list::<T>(w1, (n - i - 1) as nat, packet_format).1;
                    assert(out.deep_view() =~= sofar + seq![first]);
                    assert(sofar + (seq![first] + rest) =~= (sofar + seq![first]) + rest);
                }
            },
            Err(e) => {
                proof {
                    let w1 = T::decoded(before, packet_format).0;
                    assert(decoded_list::<T>(w1, (n - i - 1) as nat, packet_format).0 == w1);
                }
                return Err(e);
            },
        }
        i = i + 1;
    }
    proof {
        assert(out.deep_view() + Seq::<T::V>::empty() =~= out.deep_view());
    }
    Ok(out)
}

/// Count-then-pad: `count` records that are read, then filler that is passed
/// over, as wide as the `capacity - count` records that would fill the list,
/// at `width` bytes each.
pub open spec fn decoded_padded<T: Decode>(
    w: Wire,
    count: usize,
    capacity: usize,
    width: usize,
    packet_format: u16,
) -> (Wire, Seq<T::V>) {
    let (w, items) = decoded_list::<T>(w, count as nat, packet_format);
    (w.skip(((capacity - count) * width) as nat), items)
}

/// Reads `count` records and passes over the filler behind them. The caller
/// has made sure that the list has room for `count` records.
pub fn decode_padded<T: Decode>(
    cursor: &mut ByteCursor,
    count: usize,
    capacity: usize,
    width: usize,
    packet_format: u16,
) -> (r: Result<Vec<T>, DecodeError>)
    requires
        count <= capacity,
        (capacity - count) * width <= usize::MAX,
    ensures
        follows_view(
            r,
            final(cursor)@,
            decoded_padded::<T>(old(cursor)@, count, capacity, width, packet_format),
        ),
{
    let items: Vec<T> = decode_list(cursor, count, packet_format)?;
    cursor.skip((capacity - count) * width);
    Ok(items)
}

/// Every successful decode of a `T` in the given format moves `width` bytes
/// on and leaves the datagram as it is.
pub open spec fn has_width<T: Decode>(packet_format: u16, width: nat) -> bool {
    forall|w: Wire|
        w.countable() && !w.failed() && !(#[trigger] T::decoded(w, packet_format)).0.failed() ==> {
            &&& T::decoded(w, packet_format).0.pos == w.pos + width
            &&& T::decoded(w, packet_format).0.data == w.data
        }
}

/// A list of `n` records of one width that was read to its end has `n`
/// entries and is `n` times as wide as one of them.
pub proof fn lemma_list_layout<T: Decode>(w: Wire, n: nat, packet_format: u16, width: nat)
    requires
        has_width::<T>(packet_format, width),
        w.countable(),
        !decoded_list::<T>(w, n, packet_format).0.failed(),
    ensures
        !w.failed(),
        decoded_list::<T>(w, n, packet_format).1.len() == n,
        decoded_list::<T>(w, n, packet_format).0.pos == w.pos + n * width,
        decoded_list::<T>(w, n, packet_format).0.data == w.data,
    decreases n,
{
    if n > 0 {
        let w1 = T::decoded(w, packet_format).0;
        assert(decoded_list::<T>(w, n, packet_format).0 == decoded_list::<T>(
            w1,
            (n - 1) as nat,
            packet_format,
        ).0);
        if w1.failed() {
            assert(decoded_list::<T>(w1, (n - 1) as nat, packet_format).0 == w1);
        }
        lemma_list_layout::<T>(w1, (n - 1) as nat, packet_format, width);
        assert((n - 1) * width + width == n * width) by (nonlinear_arith);
    }
}

/// Count-then-pad always ends where a full list would end: a list of
/// `count` records with its filler is as wide as `capacity` records,
/// whatever `count` is.
pub proof fn lemma_padded_layout<T: Decode>(w: Wire, count: usize, capacity: usize, width: usize, packet_format: u16)
    requires
        has_width::<T>(packet_format, width as nat),
        w.countable(),
        count <= capacity,
        w.pos + capacity * width <= usize::MAX,
        !decoded_padded::<T>(w, count, capacity, width, packet_format).0.failed(),
    ensures
        decoded_padded::<T>(w, count, capacity, width, packet_format).1.len() == count,
        decoded_padded::<T>(w, count, capacity, width, packet_format).0.pos == w.pos + capacity * width,
        decoded_padded::<T>(w, count, capacity, width, packet_format).0.data == w.data,
{
    lemma_list_layout::<T>(w, count as nat, packet_format, width as nat);
    assert(count * width + (capacity - count) * width == capacity * width) by (nonlinear_arith);
    assert((capacity - count) * width >= 0) by (nonlinear_arith)
        requires
            count <= capacity,
    ;
}

/// A record behind a seal: the same value as `T::decoded`, which a proof sees
/// only where it asks for it. A packet has a slot for every kind of body, and
/// what is said of the slots does not depend on the layout of any body.
#[verifier::opaque]
pub open spec fn sealed<T: Decode>(w: Wire, packet_format: u16) -> (Wire, T::V) {
    T::decoded(w, packet_format)
}

/// A body that is on the wire only if `present`. A state that has failed
/// stays as it is.
pub open spec fn decoded_if<T: Decode>(w: Wire, present: bool, packet_format: u16) -> (Wire, Option<T::V>) {
    if present && !w.failed() {
        let (w, v) = sealed::<T>(w, packet_format);
        (w, Some(v))
    } else {
        (w, None)
    }
}

/// Reads a body if `present`, and nothing otherwise.
pub fn decode_if<T: Decode>(cursor: &mut ByteCursor, present: bool, packet_format: u16) -> (r: Result<
    Option<T>,
    DecodeError,
>)
    ensures
        follows_view(r, final(cursor)@, decoded_if::<T>(old(cursor)@, present, packet_format)),
{
    proof {
        reveal(sealed);
    }
    if present {
        let v: T = T::decode(cursor, packet_format)?;
        Ok(Some(v))
    } else {
        Ok(None)
    }
}

impl DeepView for ActualTyreCompound {
    type V = ActualTyreCompound;

    open spec fn deep_view(&self) -> ActualTyreCompound {
        *self
    }
}

/// A tyre compound as an entry of a list: one byte, in every format.
impl Decode for ActualTyreCompound {
    open spec fn decoded(w: Wire, packet_format: u16) -> (Wire, ActualTyreCompound) {
        w.code::<ActualTyreCompound>()
    }

    fn decode(cursor: &mut ByteCursor, packet_format: u16) -> (r: Result<ActualTyreCompound, DecodeError>) {
        cursor.read_code()
    }
}

impl DeepView for VisualTyreCompound {
    type V = VisualTyreCompound;

    open spec fn deep_view(&self) -> VisualTyreCompound {
        *self
    }
}

/// A tyre compound as an entry of a list: one byte, in every format.
impl Decode for VisualTyreCompound {
    open spec fn decoded(w: Wire, packet_format: u16) -> (Wire, VisualTyreCompound) {
        w.code::<VisualTyreCompound>()
    }

    fn decode(cursor: &mut ByteCursor, packet_format: u16) -> (r: Result<VisualTyreCompound, DecodeError>) {
        cursor.read_code()
    }
}

} // verus!
