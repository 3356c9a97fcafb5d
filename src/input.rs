//! The input model: an ordered, append-only sequence of items handed to a guest.

use vstd::prelude::*;

verus! {

/// Little-endian encoding of `n` over `width` bytes (the low `width` bytes of `n`).
pub open spec fn le_bytes(n: nat, width: nat) -> Seq<u8>
    decreases width,
{
    if width == 0 {
        Seq::empty()
    } else {
        seq![(n % 256) as u8] + le_bytes(n / 256, (width - 1) as nat)
    }
}

/// Each word as four little-endian bytes, in order.
pub open spec fn words_le(w: Seq<u32>) -> Seq<u8>
    decreases w.len(),
{
    if w.len() == 0 {
        Seq::empty()
    } else {
        words_le(w.drop_last()) + le_bytes(w.last() as nat, 4)
    }
}

/// One argument for a guest program.
///
/// `Object` holds a structured value in two encodings: `encoded`, the
/// backend-agnostic one (bincode: fixed-width little-endian integers), and
/// `words`, the 32-bit word encoding that RISC Zero guests read. `Bytes` is a
/// raw payload passed through unchanged.
#[derive(Debug)]
pub enum InputItem {
    Object { encoded: Vec<u8>, words: Vec<u32> },
    Bytes(Vec<u8>),
}

impl InputItem {
    /// The bytes this item contributes to a serialized input stream.
    pub open spec fn payload(self) -> Seq<u8> {
        match self {
            InputItem::Object { encoded, .. } => encoded@,
            InputItem::Bytes(b) => b@,
        }
    }

    /// The item's bytes: the encoded object, or the raw payload.
    pub fn as_bytes(&self) -> (r: Vec<u8>)
        ensures
            r@ == self.payload(),
    {
        match self {
            InputItem::Object { encoded, .. } => encoded.clone(),
            InputItem::Bytes(b) => b.clone(),
        }
    }
}

/// The payloads of `items`, one after the other.
pub open spec fn concat_payloads(items: Seq<InputItem>) -> Seq<u8>
    decreases items.len(),
{
    if items.len() == 0 {
        Seq::empty()
    } else {
        concat_payloads(items.drop_last()) + items.last().payload()
    }
}

/// Appending an item appends its payload to the concatenated stream: the
/// items already there keep their bytes and their order.
pub proof fn lemma_append_extends_stream(items: Seq<InputItem>, item: InputItem)
    ensures
        concat_payloads(items.push(item)) == concat_payloads(items) + item.payload(),
{
    assert(items.push(item).drop_last() =~= items);
}

/// Writes the low `width` bytes of `n`, least significant first.
pub(crate) fn le_encode(n: u64, width: usize) -> (r: Vec<u8>)
    requires
        width <= 8,
    ensures
        r@ == le_bytes(n as nat, width as nat),
{
    let mut out: Vec<u8> = Vec::new();
    let mut rest: u64 = n;
    let mut i: usize = 0;
    while i < width
        invariant
            i <= width,
            out@ + le_bytes(rest as nat, (width - i) as nat) == le_bytes(n as nat, width as nat),
        decreases width - i,
    {
        let ghost before = out@;
        out.push((rest % 256) as u8);
        proof {
            assert(le_bytes(rest as nat, (width - i) as nat) == seq![(rest % 256) as u8]
                + le_bytes((rest / 256) as nat, (width - i - 1) as nat));
            assert(out@ == before + seq![(rest % 256) as u8]);
            assert((rest as nat) / 256 == (rest / 256) as nat);
            assert(out@ + le_bytes((rest / 256) as nat, (width - i - 1) as nat) =~= before + (
            seq![(rest % 256) as u8] + le_bytes((rest / 256) as nat, (width - i - 1) as nat)));
        }
        rest = rest / 256;
        i = i + 1;
    }
    assert(le_bytes(rest as nat, 0) == Seq::<u8>::empty());
    assert(out@ + Seq::<u8>::empty() =~= out@);
    out
}

/// Relies on risc0_zkvm::serde::to_vec, which writes a `u16` as one word
/// holding its value, into a `Vec` that cannot fail to grow.
#[verifier::external_body]
fn words_u16(v: u16) -> (r: Result<Vec<u32>, String>)
    ensures
        r is Ok,
        r matches Ok(w) ==> w@ == seq![v as u32],
{
    risc0_zkvm::serde::to_vec(&v).map_err(|e| e.to_string())
}

/// Relies on risc0_zkvm::serde::to_vec, which writes a `u32` as one word.
#[verifier::external_body]
fn words_u32(v: u32) -> (r: Result<Vec<u32>, String>)
    ensures
        r is Ok,
        r matches Ok(w) ==> w@ == seq![v],
{
    risc0_zkvm::serde::to_vec(&v).map_err(|e| e.to_string())
}

/// Relies on risc0_zkvm::serde::to_vec, which writes a `u64` as two words,
/// the low half first.
#[verifier::external_body]
fn words_u64(v: u64) -> (r: Result<Vec<u32>, String>)
    ensures
        r is Ok,
        r matches Ok(w) ==> w@ == seq![(v % 0x1_0000_0000) as u32, (v / 0x1_0000_0000) as u32],
{
    risc0_zkvm::serde::to_vec(&v).map_err(|e| e.to_string())
}

/// The ordered inputs of one `execute` or `prove` call.
#[derive(Debug)]
pub struct Input {
    items: Vec<InputItem>,
}

impl View for Input {
    type V = Seq<InputItem>;

    closed spec fn view(&self) -> Seq<InputItem> {
        self.items@
    }
}

impl Input {
    /// An input with no items.
    pub fn new() -> (r: Input)
        ensures
            r@ == Seq::<InputItem>::empty(),
    {
        Input { items: Vec::new() }
    }

    /// Appends an object given in its two encodings.
    pub fn write_object(&mut self, encoded: Vec<u8>, words: Vec<u32>)
        ensures
            final(self)@ == old(self)@.push(InputItem::Object { encoded, words }),
    {
        self.items.push(InputItem::Object { encoded, words });
    }

    /// Appends a raw byte payload.
    pub fn write_bytes(&mut self, bytes: Vec<u8>)
        ensures
            final(self)@ == old(self)@.push(InputItem::Bytes(bytes)),
    {
        self.items.push(InputItem::Bytes(bytes));
    }

    /// Appends a `u16` object: two little-endian bytes, and its words.
    pub fn write_u16(&mut self, v: u16)
        ensures
            final(self)@.len() == old(self)@.len() + 1,
            final(self)@.drop_last() == old(self)@,
            final(self)@.last() matches InputItem::Object { encoded, words } && encoded@
                == le_bytes(v as nat, 2) && words@ == seq![v as u32],
    {
        let encoded = le_encode(v as u64, 2);
        let words = match words_u16(v) {
            Ok(w) => w,
            Err(_) => Vec::new(),
        };
        self.items.push(InputItem::Object { encoded, words });
    }

    /// Appends a `u32` object: four little-endian bytes, and its words.
    pub fn write_u32(&mut self, v: u32)
        ensures
            final(self)@.len() == old(self)@.len() + 1,
            final(self)@.drop_last() == old(self)@,
            final(self)@.last() matches InputItem::Object { encoded, words } && encoded@
                == le_bytes(v as nat, 4) && words@ == seq![v],
    {
        let encoded = le_encode(v as u64, 4);
        let words = match words_u32(v) {
            Ok(w) => w,
            Err(_) => Vec::new(),
        };
        self.items.push(InputItem::Object { encoded, words });
    }

    /// Appends a `u64` object: eight little-endian bytes, and its words.
    pub fn write_u64(&mut self, v: u64)
        ensures
            final(self)@.len() == old(self)@.len() + 1,
            final(self)@.drop_last() == old(self)@,
            final(self)@.last() matches InputItem::Object { encoded, words } && encoded@
                == le_bytes(v as nat, 8) && words@ == seq![(v % 0x1_0000_0000) as u32, (v / 0x1_0000_0000) as u32],
    {
        let encoded = le_encode(v, 8);
        let words = match words_u64(v) {
            Ok(w) => w,
            Err(_) => Vec::new(),
        };
        self.items.push(InputItem::Object { encoded, words });
    }

    /// Number of items.
    pub fn len(&self) -> (r: usize)
        ensures
            r == self@.len(),
    {
        self.items.len()
    }

    /// Whether the input holds no item.
    pub fn is_empty(&self) -> (r: bool)
        ensures
            r == (self@.len() == 0),
    {
        self.items.len() == 0
    }

    /// The item at position `i`.
    pub fn get(&self, i: usize) -> (r: &InputItem)
        requires
            i < self@.len(),
        ensures
            *r == self@[i as int],
    {
        &self.items[i]
    }

    /// All payloads concatenated in order: the single private-input buffer
    /// that stream-reading backends consume.
    pub fn concatenated_bytes(&self) -> (r: Vec<u8>)
        ensures
            r@ == concat_payloads(self@),
    {
        let mut out: Vec<u8> = Vec::new();
        let mut i: usize = 0;
        while i < self.items.len()
            invariant
                i <= self@.len(),
                out@ == concat_payloads(self@.subrange(0, i as int)),
            decreases self@.len() - i,
        {
            let mut b = self.items[i].as_bytes();
            proof {
                let s = self@.subrange(0, i as int + 1);
                assert(s.drop_last() =~= self@.subrange(0, i as int));
                assert(s.last() == self@[i as int]);
            }
            out.append(&mut b);
            i = i + 1;
        }
        assert(self@.subrange(0, self@.len() as int) =~= self@);
        out
    }
}

} // verus!
