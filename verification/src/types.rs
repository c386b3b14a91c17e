//! Core wire types: the account discriminator, order-book records and the
//! small enums that instruction payloads carry as single bytes.

use vstd::bytes::*;
use vstd::prelude::*;

use crate::codec::{
    lemma_auto_spec_i64_to_from_le_bytes, lemma_subrange_of_concat_left,
    lemma_subrange_of_concat_right, put_i64, put_u16, put_u32, put_u64, put_u8, read_i64, read_u16,
    read_u32, read_u64, read_u8, spec_i64_from_le_bytes, spec_i64_to_le_bytes,
};
use crate::constants::{NULL_CLIENT, NULL_NODE, NULL_ORDER};
use crate::ids::{ClientId, Tag, Version};
use crate::text::{bytes_to_hex, spec_dec, spec_hex_bytes, u32_to_string};
use vstd::string::StringExecFns;

verus! {

broadcast use lemma_subrange_of_concat_left, lemma_subrange_of_concat_right;

/// A 32-byte account address, carried as plain bytes.  The host runtime owns
/// key derivation and base58 rendering; this layer only stores and compares
/// addresses.
#[derive(Clone, Copy, Debug)]
pub struct Address(pub [u8; 32]);

impl PartialEq for Address {
    fn eq(&self, other: &Address) -> (r: bool) {
        let mut i: usize = 0;
        while i < 32
            invariant
                0 <= i <= 32,
                forall|j: int| 0 <= j < i ==> self.0@[j] == other.0@[j],
            decreases 32 - i,
        {
            if self.0[i] != other.0[i] {
                return false;
            }
            i += 1;
        }
        proof {
            assert(self.0@ =~= other.0@);
        }
        true
    }
}

impl Eq for Address {}

impl vstd::std_specs::cmp::PartialEqSpecImpl for Address {
    open spec fn obeys_eq_spec() -> bool {
        true
    }

    open spec fn eq_spec(&self, other: &Address) -> bool {
        self.0@ == other.0@
    }
}

impl Address {
    pub fn new(bytes: [u8; 32]) -> (r: Address)
        ensures
            r.0@ == bytes@,
    {
        Address(bytes)
    }

    pub fn read_at(b: &[u8], off: usize) -> (r: Address)
        requires
            off + 32 <= b@.len(),
        ensures
            r.0@ == b@.subrange(off as int, off as int + 32),
    {
        let n = b.len();
        let mut a = [0u8; 32];
        let mut i: usize = 0;
        while i < 32
            invariant
                0 <= i <= 32,
                off + 32 <= n == b@.len(),
                forall|j: int| 0 <= j < i ==> a@[j] == b@[off + j],
            decreases 32 - i,
        {
            a[i] = b[off + i];
            i += 1;
        }
        assert(a@ =~= b@.subrange(off as int, off as int + 32));
        Address(a)
    }

    pub fn write(&self, out: &mut Vec<u8>)
        ensures
            final(out)@ == old(out)@ + self.0@,
    {
        let mut i: usize = 0;
        while i < 32
            invariant
                0 <= i <= 32,
                out@ == old(out)@ + self.0@.subrange(0, i as int),
            decreases 32 - i,
        {
            out.push(self.0[i]);
            proof {
                assert(out@ =~= old(out)@ + self.0@.subrange(0, i + 1));
            }
            i += 1;
        }
        proof {
            assert(self.0@.subrange(0, 32) =~= self.0@);
        }
    }
}

/// Discriminator is a unique identifier of every account in the system,
/// stored in the first 8 bytes of the account's data: the kind tag in bytes
/// 0..4 and the schema version in bytes 4..8, both little-endian.
#[derive(Clone, Copy, Debug, PartialEq, Eq, Structural, Default)]
pub struct Discriminator {
    pub tag: Tag,
    pub version: Version,
}

pub const DISCRIMINATOR_SIZE: usize = 8;

impl Discriminator {
    /// The discriminator encoded at byte offset `off` of a buffer.
    pub open spec fn wire_at(b: Seq<u8>, off: int) -> Discriminator {
        Discriminator {
            tag: Tag(spec_u32_from_le_bytes(b.subrange(off, off + 4))),
            version: Version(spec_u32_from_le_bytes(b.subrange(off + 4, off + 8))),
        }
    }

    pub fn new(tag: Tag, version: Version) -> (r: Self)
        ensures
            r == (Discriminator { tag, version }),
    {
        Discriminator { tag, version }
    }

    pub fn read_at(b: &[u8], off: usize) -> (r: Self)
        requires
            off + 8 <= b@.len(),
        ensures
            r == Self::wire_at(b@, off as int),
    {
        let n = b.len();
        assert(off + 8 <= n);
        Discriminator {
            tag: Tag(read_u32(b, off)),
            version: Version(read_u32(b, off + 4)),
        }
    }

    pub fn write(&self, out: &mut Vec<u8>)
        ensures
            final(out)@.len() == old(out)@.len() + DISCRIMINATOR_SIZE,
            final(out)@.subrange(0, old(out)@.len() as int) == old(out)@,
            Self::wire_at(final(out)@, old(out)@.len() as int) == *self,
    {
        let ghost base = out@;
        put_u32(out, self.tag.0);
        put_u32(out, self.version.0);
        proof {
            lemma_auto_spec_u32_to_from_le_bytes();
            let t = spec_u32_to_le_bytes(self.tag.0);
            let v = spec_u32_to_le_bytes(self.version.0);
            assert(out@ == base + t + v);
            assert((base + t + v).subrange(0, base.len() as int) =~= base);
            assert((base + t).subrange(base.len() as int, base.len() as int + 4) == t);
            assert(out@.subrange(base.len() as int, base.len() as int + 4) =~= t);
            assert(out@.subrange(base.len() as int + 4, base.len() as int + 8) == v);
        }
    }
}

/// Line Quotes: one readable order-book level, a price and the
/// aggregated quantity quoted at it.
#[derive(Clone, Copy, Debug, PartialEq)]
pub struct LineQuotes {
    pub px: i64,
    pub qty: i64,
}

pub const LINE_QUOTES_SIZE: usize = 16;

impl LineQuotes {
    /// The `LineQuotes` image that starts at byte offset `off` of a buffer.
    pub open spec fn wire_at(b: Seq<u8>, off: int) -> LineQuotes {
        LineQuotes {
            px: spec_i64_from_le_bytes(b.subrange(off, off + 8)),
            qty: spec_i64_from_le_bytes(b.subrange(off + 8, off + 16)),
        }
    }

    pub fn read_at(b: &[u8], off: usize) -> (r: LineQuotes)
        requires
            off + LINE_QUOTES_SIZE <= b@.len(),
        ensures
            r == Self::wire_at(b@, off as int),
    {
        let n = b.len();
        assert(off + 16 <= n);
        LineQuotes {
            px: read_i64(b, off),
            qty: read_i64(b, off + 8),
        }
    }

    pub fn write(&self, out: &mut Vec<u8>)
        ensures
            final(out)@.len() == old(out)@.len() + LINE_QUOTES_SIZE,
            final(out)@.subrange(0, old(out)@.len() as int) == old(out)@,
            Self::wire_at(final(out)@, old(out)@.len() as int) == *self,
    {
        let ghost base = out@;
        put_i64(out, self.px);
        put_i64(out, self.qty);
        proof {
            lemma_auto_spec_u16_to_from_le_bytes();
            lemma_auto_spec_u32_to_from_le_bytes();
            lemma_auto_spec_u64_to_from_le_bytes();
            lemma_auto_spec_i64_to_from_le_bytes();
            assert(out@ == base + spec_i64_to_le_bytes(self.px) + spec_i64_to_le_bytes(self.qty));
            assert(out@.subrange(base.len() as int, base.len() as int + 8) =~= spec_i64_to_le_bytes(self.px));
            assert(out@.subrange(base.len() as int + 8, base.len() as int + 16) =~= spec_i64_to_le_bytes(self.qty));
            assert(out@.subrange(0, base.len() as int) =~= base);
            assert(Self::wire_at(out@, base.len() as int) == *self);
        }
    }

    pub fn encode(&self) -> (r: Vec<u8>)
        ensures
            r@.len() == LINE_QUOTES_SIZE,
            Self::wire_at(r@, 0) == *self,
    {
        let mut out: Vec<u8> = Vec::new();
        self.write(&mut out);
        out
    }
}

/// One asset position of a client: the asset id, the temporary client
/// slot id inside the owning trading account, and the position value.
#[derive(Clone, Copy, Debug, PartialEq)]
pub struct AssetRecord {
    pub asset_id: u32,
    pub temp_id: u32,
    pub value: i64,
}

pub const ASSET_RECORD_SIZE: usize = 16;

impl AssetRecord {
    /// The `AssetRecord` image that starts at byte offset `off` of a buffer.
    pub open spec fn wire_at(b: Seq<u8>, off: int) -> AssetRecord {
        AssetRecord {
            asset_id: spec_u32_from_le_bytes(b.subrange(off, off + 4)),
            temp_id: spec_u32_from_le_bytes(b.subrange(off + 4, off + 8)),
            value: spec_i64_from_le_bytes(b.subrange(off + 8, off + 16)),
        }
    }

    pub fn read_at(b: &[u8], off: usize) -> (r: AssetRecord)
        requires
            off + ASSET_RECORD_SIZE <= b@.len(),
        ensures
            r == Self::wire_at(b@, off as int),
    {
        let n = b.len();
        assert(off + 16 <= n);
        AssetRecord {
            asset_id: read_u32(b, off),
            temp_id: read_u32(b, off + 4),
            value: read_i64(b, off + 8),
        }
    }

    pub fn write(&self, out: &mut Vec<u8>)
        ensures
            final(out)@.len() == old(out)@.len() + ASSET_RECORD_SIZE,
            final(out)@.subrange(0, old(out)@.len() as int) == old(out)@,
            Self::wire_at(final(out)@, old(out)@.len() as int) == *self,
    {
        let ghost base = out@;
        put_u32(out, self.asset_id);
        put_u32(out, self.temp_id);
        put_i64(out, self.value);
        proof {
            lemma_auto_spec_u16_to_from_le_bytes();
            lemma_auto_spec_u32_to_from_le_bytes();
            lemma_auto_spec_u64_to_from_le_bytes();
            lemma_auto_spec_i64_to_from_le_bytes();
            assert(out@ == base + spec_u32_to_le_bytes(self.asset_id) + spec_u32_to_le_bytes(self.temp_id) + spec_i64_to_le_bytes(self.value));
            assert(out@.subrange(base.len() as int, base.len() as int + 4) =~= spec_u32_to_le_bytes(self.asset_id));
            assert(out@.subrange(base.len() as int + 4, base.len() as int + 8) =~= spec_u32_to_le_bytes(self.temp_id));
            assert(out@.subrange(base.len() as int + 8, base.len() as int + 16) =~= spec_i64_to_le_bytes(self.value));
            assert(out@.subrange(0, base.len() as int) =~= base);
            assert(Self::wire_at(out@, base.len() as int) == *self);
        }
    }

    pub fn encode(&self) -> (r: Vec<u8>)
        ensures
            r@.len() == ASSET_RECORD_SIZE,
            Self::wire_at(r@, 0) == *self,
    {
        let mut out: Vec<u8> = Vec::new();
        self.write(&mut out);
        out
    }
}

/// One resting order.  Orders sit in a red-black tree keyed by
/// `order_id`; each price line and each client also threads its own
/// doubly linked list through the `prev`/`next` and `cl_prev`/`cl_next`
/// references.  An absent reference holds `NULL_ORDER`.
#[derive(Clone, Copy, Debug, PartialEq)]
pub struct Order {
    pub qty: i64,
    pub sum: i64,
    pub order_id: i64,
    pub orig_client_id: ClientId,
    pub client_id: ClientId,
    pub line: u32,
    pub prev: u32,
    pub next: u32,
    pub sref: u32,
    pub link: u32,
    pub cl_prev: u32,
    pub cl_next: u32,
    pub time: u32,
}

pub const ORDER_SIZE: usize = 64;

impl Order {
    /// The `Order` image that starts at byte offset `off` of a buffer.
    pub open spec fn wire_at(b: Seq<u8>, off: int) -> Order {
        Order {
            qty: spec_i64_from_le_bytes(b.subrange(off, off + 8)),
            sum: spec_i64_from_le_bytes(b.subrange(off + 8, off + 16)),
            order_id: spec_i64_from_le_bytes(b.subrange(off + 16, off + 24)),
            orig_client_id: ClientId(spec_u32_from_le_bytes(b.subrange(off + 24, off + 28))),
            client_id: ClientId(spec_u32_from_le_bytes(b.subrange(off + 28, off + 32))),
            line: spec_u32_from_le_bytes(b.subrange(off + 32, off + 36)),
            prev: spec_u32_from_le_bytes(b.subrange(off + 36, off + 40)),
            next: spec_u32_from_le_bytes(b.subrange(off + 40, off + 44)),
            sref: spec_u32_from_le_bytes(b.subrange(off + 44, off + 48)),
            link: spec_u32_from_le_bytes(b.subrange(off + 48, off + 52)),
            cl_prev: spec_u32_from_le_bytes(b.subrange(off + 52, off + 56)),
            cl_next: spec_u32_from_le_bytes(b.subrange(off + 56, off + 60)),
            time: spec_u32_from_le_bytes(b.subrange(off + 60, off + 64)),
        }
    }

    pub fn read_at(b: &[u8], off: usize) -> (r: Order)
        requires
            off + ORDER_SIZE <= b@.len(),
        ensures
            r == Self::wire_at(b@, off as int),
    {
        let n = b.len();
        assert(off + 64 <= n);
        Order {
            qty: read_i64(b, off),
            sum: read_i64(b, off + 8),
            order_id: read_i64(b, off + 16),
            orig_client_id: ClientId(read_u32(b, off + 24)),
            client_id: ClientId(read_u32(b, off + 28)),
            line: read_u32(b, off + 32),
            prev: read_u32(b, off + 36),
            next: read_u32(b, off + 40),
            sref: read_u32(b, off + 44),
            link: read_u32(b, off + 48),
            cl_prev: read_u32(b, off + 52),
            cl_next: read_u32(b, off + 56),
            time: read_u32(b, off + 60),
        }
    }

    pub fn write(&self, out: &mut Vec<u8>)
        ensures
            final(out)@.len() == old(out)@.len() + ORDER_SIZE,
            final(out)@.subrange(0, old(out)@.len() as int) == old(out)@,
            Self::wire_at(final(out)@, old(out)@.len() as int) == *self,
    {
        let ghost base = out@;
        put_i64(out, self.qty);
        put_i64(out, self.sum);
        put_i64(out, self.order_id);
        put_u32(out, self.orig_client_id.0);
        put_u32(out, self.client_id.0);
        put_u32(out, self.line);
        put_u32(out, self.prev);
        put_u32(out, self.next);
        put_u32(out, self.sref);
        put_u32(out, self.link);
        put_u32(out, self.cl_prev);
        put_u32(out, self.cl_next);
        put_u32(out, self.time);
        proof {
            lemma_auto_spec_u16_to_from_le_bytes();
            lemma_auto_spec_u32_to_from_le_bytes();
            lemma_auto_spec_u64_to_from_le_bytes();
            lemma_auto_spec_i64_to_from_le_bytes();
            assert(out@ == base + spec_i64_to_le_bytes(self.qty) + spec_i64_to_le_bytes(self.sum) + spec_i64_to_le_bytes(self.order_id) + spec_u32_to_le_bytes(self.orig_client_id.0) + spec_u32_to_le_bytes(self.client_id.0) + spec_u32_to_le_bytes(self.line) + spec_u32_to_le_bytes(self.prev) + spec_u32_to_le_bytes(self.next) + spec_u32_to_le_bytes(self.sref) + spec_u32_to_le_bytes(self.link) + spec_u32_to_le_bytes(self.cl_prev) + spec_u32_to_le_bytes(self.cl_next) + spec_u32_to_le_bytes(self.time));
            assert(out@.subrange(base.len() as int, base.len() as int + 8) =~= spec_i64_to_le_bytes(self.qty));
            assert(out@.subrange(base.len() as int + 8, base.len() as int + 16) =~= spec_i64_to_le_bytes(self.sum));
            assert(out@.subrange(base.len() as int + 16, base.len() as int + 24) =~= spec_i64_to_le_bytes(self.order_id));
            assert(out@.subrange(base.len() as int + 24, base.len() as int + 28) =~= spec_u32_to_le_bytes(self.orig_client_id.0));
            assert(out@.subrange(base.len() as int + 28, base.len() as int + 32) =~= spec_u32_to_le_bytes(self.client_id.0));
            assert(out@.subrange(base.len() as int + 32, base.len() as int + 36) =~= spec_u32_to_le_bytes(self.line));
            assert(out@.subrange(base.len() as int + 36, base.len() as int + 40) =~= spec_u32_to_le_bytes(self.prev));
            assert(out@.subrange(base.len() as int + 40, base.len() as int + 44) =~= spec_u32_to_le_bytes(self.next));
            assert(out@.subrange(base.len() as int + 44, base.len() as int + 48) =~= spec_u32_to_le_bytes(self.sref));
            assert(out@.subrange(base.len() as int + 48, base.len() as int + 52) =~= spec_u32_to_le_bytes(self.link));
            assert(out@.subrange(base.len() as int + 52, base.len() as int + 56) =~= spec_u32_to_le_bytes(self.cl_prev));
            assert(out@.subrange(base.len() as int + 56, base.len() as int + 60) =~= spec_u32_to_le_bytes(self.cl_next));
            assert(out@.subrange(base.len() as int + 60, base.len() as int + 64) =~= spec_u32_to_le_bytes(self.time));
            assert(out@.subrange(0, base.len() as int) =~= base);
            assert(Self::wire_at(out@, base.len() as int) == *self);
        }
    }

    pub fn encode(&self) -> (r: Vec<u8>)
        ensures
            r@.len() == ORDER_SIZE,
            Self::wire_at(r@, 0) == *self,
    {
        let mut out: Vec<u8> = Vec::new();
        self.write(&mut out);
        out
    }

    /// The next order of the price line, unless this is the last one: the
    /// wire image holds `NULL_ORDER` for an absent reference, and no caller
    /// compares against the raw sentinel.
    pub fn next_in_line(&self) -> (r: Option<u32>)
        ensures
            r == if self.next == NULL_ORDER {
                Option::<u32>::None
            } else {
                Some(self.next)
            },
    {
        if self.next == NULL_ORDER {
            None
        } else {
            Some(self.next)
        }
    }

    /// The previous order of the price line, unless this is the first one.
    pub fn prev_in_line(&self) -> (r: Option<u32>)
        ensures
            r == if self.prev == NULL_ORDER {
                Option::<u32>::None
            } else {
                Some(self.prev)
            },
    {
        if self.prev == NULL_ORDER {
            None
        } else {
            Some(self.prev)
        }
    }

    /// The next order of the owning client's list, if any.
    pub fn next_of_client(&self) -> (r: Option<u32>)
        ensures
            r == if self.cl_next == NULL_ORDER {
                Option::<u32>::None
            } else {
                Some(self.cl_next)
            },
    {
        if self.cl_next == NULL_ORDER {
            None
        } else {
            Some(self.cl_next)
        }
    }

    /// The previous order of the owning client's list, if any.
    pub fn prev_of_client(&self) -> (r: Option<u32>)
        ensures
            r == if self.cl_prev == NULL_ORDER {
                Option::<u32>::None
            } else {
                Some(self.cl_prev)
            },
    {
        if self.cl_prev == NULL_ORDER {
            None
        } else {
            Some(self.cl_prev)
        }
    }

    /// The tree node that indexes this order, if it is linked into the tree.
    pub fn tree_node(&self) -> (r: Option<u32>)
        ensures
            r == if self.link == NULL_NODE {
                Option::<u32>::None
            } else {
                Some(self.link)
            },
    {
        if self.link == NULL_NODE {
            None
        } else {
            Some(self.link)
        }
    }

    /// The temporary id of the owning client, unless the slot is vacant.
    pub fn holder_client(&self) -> (r: Option<ClientId>)
        ensures
            r == if self.client_id.0 == NULL_CLIENT {
                Option::<ClientId>::None
            } else {
                Some(self.client_id)
            },
    {
        if self.client_id.0 == NULL_CLIENT {
            None
        } else {
            Some(self.client_id)
        }
    }
}

/// One price line of the order book: the price level, the aggregated
/// quantity resting at it, its position in the line chain, and the
/// first and last order of the line.
#[derive(Clone, Copy, Debug, PartialEq)]
pub struct PxOrders {
    pub price: i64,
    pub qty: i64,
    pub next: u32,
    pub prev: u32,
    pub sref: u32,
    pub link: u32,
    pub begin: u32,
    pub end: u32,
}

pub const PX_ORDERS_SIZE: usize = 40;

impl PxOrders {
    /// The `PxOrders` image that starts at byte offset `off` of a buffer.
    pub open spec fn wire_at(b: Seq<u8>, off: int) -> PxOrders {
        PxOrders {
            price: spec_i64_from_le_bytes(b.subrange(off, off + 8)),
            qty: spec_i64_from_le_bytes(b.subrange(off + 8, off + 16)),
            next: spec_u32_from_le_bytes(b.subrange(off + 16, off + 20)),
            prev: spec_u32_from_le_bytes(b.subrange(off + 20, off + 24)),
            sref: spec_u32_from_le_bytes(b.subrange(off + 24, off + 28)),
            link: spec_u32_from_le_bytes(b.subrange(off + 28, off + 32)),
            begin: spec_u32_from_le_bytes(b.subrange(off + 32, off + 36)),
            end: spec_u32_from_le_bytes(b.subrange(off + 36, off + 40)),
        }
    }

    pub fn read_at(b: &[u8], off: usize) -> (r: PxOrders)
        requires
            off + PX_ORDERS_SIZE <= b@.len(),
        ensures
            r == Self::wire_at(b@, off as int),
    {
        let n = b.len();
        assert(off + 40 <= n);
        PxOrders {
            price: read_i64(b, off),
            qty: read_i64(b, off + 8),
            next: read_u32(b, off + 16),
            prev: read_u32(b, off + 20),
            sref: read_u32(b, off + 24),
            link: read_u32(b, off + 28),
            begin: read_u32(b, off + 32),
            end: read_u32(b, off + 36),
        }
    }

    pub fn write(&self, out: &mut Vec<u8>)
        ensures
            final(out)@.len() == old(out)@.len() + PX_ORDERS_SIZE,
            final(out)@.subrange(0, old(out)@.len() as int) == old(out)@,
            Self::wire_at(final(out)@, old(out)@.len() as int) == *self,
    {
        let ghost base = out@;
        put_i64(out, self.price);
        put_i64(out, self.qty);
        put_u32(out, self.next);
        put_u32(out, self.prev);
        put_u32(out, self.sref);
        put_u32(out, self.link);
        put_u32(out, self.begin);
        put_u32(out, self.end);
        proof {
            lemma_auto_spec_u16_to_from_le_bytes();
            lemma_auto_spec_u32_to_from_le_bytes();
            lemma_auto_spec_u64_to_from_le_bytes();
            lemma_auto_spec_i64_to_from_le_bytes();
            assert(out@ == base + spec_i64_to_le_bytes(self.price) + spec_i64_to_le_bytes(self.qty) + spec_u32_to_le_bytes(self.next) + spec_u32_to_le_bytes(self.prev) + spec_u32_to_le_bytes(self.sref) + spec_u32_to_le_bytes(self.link) + spec_u32_to_le_bytes(self.begin) + spec_u32_to_le_bytes(self.end));
            assert(out@.subrange(base.len() as int, base.len() as int + 8) =~= spec_i64_to_le_bytes(self.price));
            assert(out@.subrange(base.len() as int + 8, base.len() as int + 16) =~= spec_i64_to_le_bytes(self.qty));
            assert(out@.subrange(base.len() as int + 16, base.len() as int + 20) =~= spec_u32_to_le_bytes(self.next));
            assert(out@.subrange(base.len() as int + 20, base.len() as int + 24) =~= spec_u32_to_le_bytes(self.prev));
            assert(out@.subrange(base.len() as int + 24, base.len() as int + 28) =~= spec_u32_to_le_bytes(self.sref));
            assert(out@.subrange(base.len() as int + 28, base.len() as int + 32) =~= spec_u32_to_le_bytes(self.link));
            assert(out@.subrange(base.len() as int + 32, base.len() as int + 36) =~= spec_u32_to_le_bytes(self.begin));
            assert(out@.subrange(base.len() as int + 36, base.len() as int + 40) =~= spec_u32_to_le_bytes(self.end));
            assert(out@.subrange(0, base.len() as int) =~= base);
            assert(Self::wire_at(out@, base.len() as int) == *self);
        }
    }

    pub fn encode(&self) -> (r: Vec<u8>)
        ensures
            r@.len() == PX_ORDERS_SIZE,
            Self::wire_at(r@, 0) == *self,
    {
        let mut out: Vec<u8> = Vec::new();
        self.write(&mut out);
        out
    }

    /// The first order resting at this price level, if the line holds any.
    pub fn first_order(&self) -> (r: Option<u32>)
        ensures
            r == if self.begin == NULL_ORDER {
                Option::<u32>::None
            } else {
                Some(self.begin)
            },
    {
        if self.begin == NULL_ORDER {
            None
        } else {
            Some(self.begin)
        }
    }

    /// The last order resting at this price level, if the line holds any.
    pub fn last_order(&self) -> (r: Option<u32>)
        ensures
            r == if self.end == NULL_ORDER {
                Option::<u32>::None
            } else {
                Some(self.end)
            },
    {
        if self.end == NULL_ORDER {
            None
        } else {
            Some(self.end)
        }
    }

    /// The tree node that indexes this price line, if it is linked in.
    pub fn tree_node(&self) -> (r: Option<u32>)
        ensures
            r == if self.link == NULL_NODE {
                Option::<u32>::None
            } else {
                Some(self.link)
            },
    {
        if self.link == NULL_NODE {
            None
        } else {
            Some(self.link)
        }
    }
}

/// One operator slot of the holder account.
#[derive(Clone, Copy, Debug)]
pub struct Operator {
    pub operator_address: Address,
    pub version: Version,
    pub reserved: u32,
}

pub const OPERATOR_SIZE: usize = 40;

impl Operator {
    /// Whether this value is exactly what the `Operator` image that starts
    /// at byte offset `off` of the buffer holds.
    pub open spec fn matches_wire(self, b: Seq<u8>, off: int) -> bool {
        &&& self.operator_address.0@ == b.subrange(off, off + 32)
        &&& self.version == Version(spec_u32_from_le_bytes(b.subrange(off + 32, off + 36)))
        &&& self.reserved == spec_u32_from_le_bytes(b.subrange(off + 36, off + 40))
    }

    pub fn read_at(b: &[u8], off: usize) -> (r: Operator)
        requires
            off + OPERATOR_SIZE <= b@.len(),
        ensures
            r.matches_wire(b@, off as int),
    {
        let n = b.len();
        assert(off + 40 <= n);
        Operator {
            operator_address: Address::read_at(b, off),
            version: Version(read_u32(b, off + 32)),
            reserved: read_u32(b, off + 36),
        }
    }

    pub fn write(&self, out: &mut Vec<u8>)
        ensures
            final(out)@.len() == old(out)@.len() + OPERATOR_SIZE,
            final(out)@.subrange(0, old(out)@.len() as int) == old(out)@,
            self.matches_wire(final(out)@, old(out)@.len() as int),
    {
        let ghost base = out@;
        self.operator_address.write(out);
        put_u32(out, self.version.0);
        put_u32(out, self.reserved);
        proof {
            lemma_auto_spec_u16_to_from_le_bytes();
            lemma_auto_spec_u32_to_from_le_bytes();
            lemma_auto_spec_u64_to_from_le_bytes();
            lemma_auto_spec_i64_to_from_le_bytes();
            assert(out@ == base + self.operator_address.0@ + spec_u32_to_le_bytes(self.version.0) + spec_u32_to_le_bytes(self.reserved));
            assert(out@.subrange(base.len() as int, base.len() as int + 32) =~= self.operator_address.0@);
            assert(out@.subrange(base.len() as int + 32, base.len() as int + 36) =~= spec_u32_to_le_bytes(self.version.0));
            assert(out@.subrange(base.len() as int + 36, base.len() as int + 40) =~= spec_u32_to_le_bytes(self.reserved));
            assert(out@.subrange(0, base.len() as int) =~= base);
            assert(self.matches_wire(out@, base.len() as int));
        }
    }

    pub fn encode(&self) -> (r: Vec<u8>)
        ensures
            r@.len() == OPERATOR_SIZE,
            self.matches_wire(r@, 0),
    {
        let mut out: Vec<u8> = Vec::new();
        self.write(&mut out);
        out
    }
}

/// Per-base-currency community record: dividend funds, the current
/// dividend rate and the fee-prepayment denominator.  The `rate` and
/// `denominator` fields are binary64 parameters of the host-side fee
/// arithmetic; this layer carries them as raw bit patterns.
#[derive(Clone, Copy, Debug, PartialEq)]
pub struct BaseCrncyRecord {
    pub crncy_token_id: u32,
    pub decs_count: u32,
    pub funds: i64,
    pub rate: u64,
    pub denominator: u64,
    pub locked_drvs_amount: i64,
    pub locked_drvs_dividends_value: i64,
    pub mask: i64,
}

pub const BASE_CRNCY_RECORD_SIZE: usize = 56;

impl BaseCrncyRecord {
    /// The `BaseCrncyRecord` image that starts at byte offset `off` of a buffer.
    pub open spec fn wire_at(b: Seq<u8>, off: int) -> BaseCrncyRecord {
        BaseCrncyRecord {
            crncy_token_id: spec_u32_from_le_bytes(b.subrange(off, off + 4)),
            decs_count: spec_u32_from_le_bytes(b.subrange(off + 4, off + 8)),
            funds: spec_i64_from_le_bytes(b.subrange(off + 8, off + 16)),
            rate: spec_u64_from_le_bytes(b.subrange(off + 16, off + 24)),
            denominator: spec_u64_from_le_bytes(b.subrange(off + 24, off + 32)),
            locked_drvs_amount: spec_i64_from_le_bytes(b.subrange(off + 32, off + 40)),
            locked_drvs_dividends_value: spec_i64_from_le_bytes(b.subrange(off + 40, off + 48)),
            mask: spec_i64_from_le_bytes(b.subrange(off + 48, off + 56)),
        }
    }

    pub fn read_at(b: &[u8], off: usize) -> (r: BaseCrncyRecord)
        requires
            off + BASE_CRNCY_RECORD_SIZE <= b@.len(),
        ensures
            r == Self::wire_at(b@, off as int),
    {
        let n = b.len();
        assert(off + 56 <= n);
        BaseCrncyRecord {
            crncy_token_id: read_u32(b, off),
            decs_count: read_u32(b, off + 4),
            funds: read_i64(b, off + 8),
            rate: read_u64(b, off + 16),
            denominator: read_u64(b, off + 24),
            locked_drvs_amount: read_i64(b, off + 32),
            locked_drvs_dividends_value: read_i64(b, off + 40),
            mask: read_i64(b, off + 48),
        }
    }

    pub fn write(&self, out: &mut Vec<u8>)
        ensures
            final(out)@.len() == old(out)@.len() + BASE_CRNCY_RECORD_SIZE,
            final(out)@.subrange(0, old(out)@.len() as int) == old(out)@,
            Self::wire_at(final(out)@, old(out)@.len() as int) == *self,
    {
        let ghost base = out@;
        put_u32(out, self.crncy_token_id);
        put_u32(out, self.decs_count);
        put_i64(out, self.funds);
        put_u64(out, self.rate);
        put_u64(out, self.denominator);
        put_i64(out, self.locked_drvs_amount);
        put_i64(out, self.locked_drvs_dividends_value);
        put_i64(out, self.mask);
        proof {
            lemma_auto_spec_u16_to_from_le_bytes();
            lemma_auto_spec_u32_to_from_le_bytes();
            lemma_auto_spec_u64_to_from_le_bytes();
            lemma_auto_spec_i64_to_from_le_bytes();
            assert(out@ == base + spec_u32_to_le_bytes(self.crncy_token_id) + spec_u32_to_le_bytes(self.decs_count) + spec_i64_to_le_bytes(self.funds) + spec_u64_to_le_bytes(self.rate) + spec_u64_to_le_bytes(self.denominator) + spec_i64_to_le_bytes(self.locked_drvs_amount) + spec_i64_to_le_bytes(self.locked_drvs_dividends_value) + spec_i64_to_le_bytes(self.mask));
            assert(out@.subrange(base.len() as int, base.len() as int + 4) =~= spec_u32_to_le_bytes(self.crncy_token_id));
            assert(out@.subrange(base.len() as int + 4, base.len() as int + 8) =~= spec_u32_to_le_bytes(self.decs_count));
            assert(out@.subrange(base.len() as int + 8, base.len() as int + 16) =~= spec_i64_to_le_bytes(self.funds));
            assert(out@.subrange(base.len() as int + 16, base.len() as int + 24) =~= spec_u64_to_le_bytes(self.rate));
            assert(out@.subrange(base.len() as int + 24, base.len() as int + 32) =~= spec_u64_to_le_bytes(self.denominator));
            assert(out@.subrange(base.len() as int + 32, base.len() as int + 40) =~= spec_i64_to_le_bytes(self.locked_drvs_amount));
            assert(out@.subrange(base.len() as int + 40, base.len() as int + 48) =~= spec_i64_to_le_bytes(self.locked_drvs_dividends_value));
            assert(out@.subrange(base.len() as int + 48, base.len() as int + 56) =~= spec_i64_to_le_bytes(self.mask));
            assert(out@.subrange(0, base.len() as int) =~= base);
            assert(Self::wire_at(out@, base.len() as int) == *self);
        }
    }

    pub fn encode(&self) -> (r: Vec<u8>)
        ensures
            r@.len() == BASE_CRNCY_RECORD_SIZE,
            Self::wire_at(r@, 0) == *self,
    {
        let mut out: Vec<u8> = Vec::new();
        self.write(&mut out);
        out
    }
}

// Bit masks packed into the root account's `mask` field.
pub const ROOT_MASK_PRIVATE_MODE: u32 = 0x1;

// Bit masks packed into an instrument's `mask` field.
pub const INSTR_MASK_DRV: u32 = 0x10000000;

pub const INSTR_MASK_PERP: u32 = 0x40000000;

pub const INSTR_MASK_ORACLE: u32 = 0x80000000;

pub const INSTR_MASK_READY_TO_PERP_UPGRADE: u32 = 0x1000000;

/// Side of an order, carried on the wire as a single byte.
#[derive(Clone, Copy, PartialEq, Eq, Structural, Debug)]
pub enum OrderSide {
    Bid,
    Ask,
}

impl OrderSide {
    pub open spec fn spec_as_u8(self) -> u8 {
        match self {
            OrderSide::Bid => 0,
            OrderSide::Ask => 1,
        }
    }

    pub open spec fn spec_from_u8(value: u8) -> Option<OrderSide> {
        match value {
            0u8 => Some(OrderSide::Bid),
            1u8 => Some(OrderSide::Ask),
            _ => None,
        }
    }

    pub fn as_u8(self) -> (r: u8)
        ensures
            r == self.spec_as_u8(),
    {
        match self {
            OrderSide::Bid => 0,
            OrderSide::Ask => 1,
        }
    }

    pub fn from_u8(value: u8) -> (r: Option<OrderSide>)
        ensures
            r == Self::spec_from_u8(value),
    {
        match value {
            0 => Some(OrderSide::Bid),
            1 => Some(OrderSide::Ask),
            _ => None,
        }
    }
}

/// Kind of an order, carried on the wire as a single byte.
#[derive(Clone, Copy, PartialEq, Eq, Structural, Debug)]
pub enum OrderType {
    Limit,
    Market,
    MarginCall,
}

impl OrderType {
    pub open spec fn spec_as_u8(self) -> u8 {
        match self {
            OrderType::Limit => 0,
            OrderType::Market => 1,
            OrderType::MarginCall => 2,
        }
    }

    pub open spec fn spec_from_u8(value: u8) -> Option<OrderType> {
        match value {
            0u8 => Some(OrderType::Limit),
            1u8 => Some(OrderType::Market),
            2u8 => Some(OrderType::MarginCall),
            _ => None,
        }
    }

    pub fn as_u8(self) -> (r: u8)
        ensures
            r == self.spec_as_u8(),
    {
        match self {
            OrderType::Limit => 0,
            OrderType::Market => 1,
            OrderType::MarginCall => 2,
        }
    }

    pub fn from_u8(value: u8) -> (r: Option<OrderType>)
        ensures
            r == Self::spec_from_u8(value),
    {
        match value {
            0 => Some(OrderType::Limit),
            1 => Some(OrderType::Market),
            2 => Some(OrderType::MarginCall),
            _ => None,
        }
    }
}

/// Direction of a market-seat trade.
#[derive(Clone, Copy, PartialEq, Eq, Structural, Debug)]
pub enum MarketSeatOrderType {
    Buy,
    Sell,
}

/// A voting choice, carried on the wire as a single byte.
#[derive(Clone, Copy, PartialEq, Eq, Structural, Debug)]
pub enum VoteOption {
    Increment,
    Decrement,
    Unchange,
}

pub const VOTE_INCREMENT: u8 = 2;

pub const VOTE_DECREMENT: u8 = 0;

impl VoteOption {
    pub open spec fn spec_as_u8(self) -> u8 {
        match self {
            VoteOption::Decrement => 0,
            VoteOption::Unchange => 1,
            VoteOption::Increment => 2,
        }
    }

    pub open spec fn spec_from_u8(value: u8) -> Option<VoteOption> {
        match value {
            0u8 => Some(VoteOption::Decrement),
            1u8 => Some(VoteOption::Unchange),
            2u8 => Some(VoteOption::Increment),
            _ => None,
        }
    }

    pub fn as_u8(self) -> (r: u8)
        ensures
            r == self.spec_as_u8(),
    {
        match self {
            VoteOption::Decrement => 0,
            VoteOption::Unchange => 1,
            VoteOption::Increment => 2,
        }
    }

    pub fn from_u8(value: u8) -> (r: Option<VoteOption>)
        ensures
            r == Self::spec_from_u8(value),
    {
        match value {
            0 => Some(VoteOption::Decrement),
            1 => Some(VoteOption::Unchange),
            2 => Some(VoteOption::Increment),
            _ => None,
        }
    }
}

/// Kind of a client asset entry, packed into the high bits of an asset id.
#[derive(Debug, Clone, Copy, PartialEq, Eq, Structural)]
pub enum AssetType {
    Token,
    SpotLp,
    SpotOrders,
    Perp,
}

impl AssetType {
    pub open spec fn spec_as_mask(self) -> u32 {
        match self {
            AssetType::Token => 0x10000000,
            AssetType::SpotLp => 0x20000000,
            AssetType::SpotOrders => 0x30000000,
            AssetType::Perp => 0x40000000,
        }
    }

    pub fn as_mask(self) -> (r: u32)
        ensures
            r == self.spec_as_mask(),
    {
        match self {
            AssetType::Token => 0x10000000,
            AssetType::SpotLp => 0x20000000,
            AssetType::SpotOrders => 0x30000000,
            AssetType::Perp => 0x40000000,
        }
    }
}

/// Which token program owns a mint.
#[derive(Debug, Clone, Copy, PartialEq, Eq, Structural)]
pub enum TokenProgram {
    Original,
    Token2022,
}

/// Role of a token inside a trading pair.
#[derive(Clone, Copy, PartialEq, Eq, Structural, Debug)]
pub enum TokenType {
    Crncy,
    Asset,
    Unset,
}

// Stored tag values, one per account kind.
pub const CLIENT_COMMUNITY: u32 = 35;

pub const CLIENT_DRV: u32 = 32;

pub const CLIENT_PRIMARY: u32 = 31;

pub const COMMUNITY: u32 = 34;

pub const HOLDER: u32 = 1;

pub const ROOT: u32 = 2;

pub const INSTR: u32 = 7;

pub const SPOT_15M_CANDLES: u32 = 20;

pub const SPOT_1M_CANDLES: u32 = 19;

pub const SPOT_ASK_ORDERS: u32 = 17;

pub const SPOT_ASKS_TREE: u32 = 15;

pub const SPOT_BID_ORDERS: u32 = 16;

pub const SPOT_BIDS_TREE: u32 = 14;

pub const SPOT_CLIENT_INFOS: u32 = 12;

pub const SPOT_CLIENT_INFOS2: u32 = 13;

pub const SPOT_DAY_CANDLES: u32 = 21;

pub const SPOT_LINES: u32 = 18;

pub const SPOT_MAPS: u32 = 10;

pub const TOKEN: u32 = 4;

pub const PERP_ASK_ORDERS: u32 = 36;

pub const PERP_ASKS_TREE: u32 = 37;

pub const PERP_BID_ORDERS: u32 = 38;

pub const PERP_BIDS_TREE: u32 = 39;

pub const PERP_CLIENT_INFOS: u32 = 41;

pub const PERP_CLIENT_INFOS2: u32 = 42;

pub const PERP_CLIENT_INFOS3: u32 = 43;

pub const PERP_CLIENT_INFOS4: u32 = 44;

pub const PERP_CLIENT_INFOS5: u32 = 45;

pub const PERP_LINES: u32 = 46;

pub const PERP_MAPS: u32 = 47;

pub const PERP_LONG_PX_TREE: u32 = 48;

pub const PERP_SHORT_PX_TREE: u32 = 49;

pub const PERP_REBALANCE_TIME_TREE: u32 = 50;

pub const PRIVATE_CLIENTS: u32 = 51;

/// Every account kind the program persists, one per discriminator tag.
/// `ProgramTokenAccount` and `DrvsAuthority` never appear as a stored tag;
/// they only name account roles in diagnostics.
#[derive(Debug, Clone, Copy, PartialEq, Eq, Structural)]
pub enum AccountType {
    Holder,
    Root,
    Token,
    Instr,
    SpotMaps,
    SpotClientAccounts,
    SpotClientInfos,
    SpotClientInfos2,
    SpotBidsTree,
    SpotAsksTree,
    SpotBidOrders,
    SpotAskOrders,
    SpotLines,
    Spot1MCandles,
    Spot15MCandles,
    SpotDayCandles,
    ClientPrimary,
    Community,
    ClientCommunity,
    PerpAskOrders,
    PerpAsksTree,
    PerpBidOrders,
    PerpBidsTree,
    PerpClientAccounts,
    PerpClientInfos,
    PerpClientInfos2,
    PerpClientInfos3,
    PerpClientInfos4,
    PerpClientInfos5,
    PerpLines,
    PerpMaps,
    PerpLongPxTree,
    PerpShortPxTree,
    PerpRebalanceTimeTree,
    PrivateClients,
    ProgramTokenAccount,
    DrvsAuthority,
}

impl AccountType {
    /// The discriminator tag stored for this account kind.
    pub open spec fn spec_as_tag(self) -> u32 {
        match self {
            AccountType::Holder => 1,
            AccountType::Root => 2,
            AccountType::Token => 4,
            AccountType::Instr => 7,
            AccountType::SpotMaps => 10,
            AccountType::SpotClientAccounts => 11,
            AccountType::SpotClientInfos => 12,
            AccountType::SpotClientInfos2 => 13,
            AccountType::SpotBidsTree => 14,
            AccountType::SpotAsksTree => 15,
            AccountType::SpotBidOrders => 16,
            AccountType::SpotAskOrders => 17,
            AccountType::SpotLines => 18,
            AccountType::Spot1MCandles => 19,
            AccountType::Spot15MCandles => 20,
            AccountType::SpotDayCandles => 21,
            AccountType::ClientPrimary => 31,
            AccountType::Community => 34,
            AccountType::ClientCommunity => 35,
            AccountType::PerpAskOrders => 36,
            AccountType::PerpAsksTree => 37,
            AccountType::PerpBidOrders => 38,
            AccountType::PerpBidsTree => 39,
            AccountType::PerpClientAccounts => 40,
            AccountType::PerpClientInfos => 41,
            AccountType::PerpClientInfos2 => 42,
            AccountType::PerpClientInfos3 => 43,
            AccountType::PerpClientInfos4 => 44,
            AccountType::PerpClientInfos5 => 45,
            AccountType::PerpLines => 46,
            AccountType::PerpMaps => 47,
            AccountType::PerpLongPxTree => 48,
            AccountType::PerpShortPxTree => 49,
            AccountType::PerpRebalanceTimeTree => 50,
            AccountType::PrivateClients => 51,
            AccountType::ProgramTokenAccount => 52,
            AccountType::DrvsAuthority => 53,
        }
    }

    /// The account kind that a stored discriminator tag denotes, if any.
    pub open spec fn spec_from_tag(value: u32) -> Option<AccountType> {
        match value {
            1u32 => Some(AccountType::Holder),
            2u32 => Some(AccountType::Root),
            4u32 => Some(AccountType::Token),
            7u32 => Some(AccountType::Instr),
            10u32 => Some(AccountType::SpotMaps),
            11u32 => Some(AccountType::SpotClientAccounts),
            12u32 => Some(AccountType::SpotClientInfos),
            13u32 => Some(AccountType::SpotClientInfos2),
            14u32 => Some(AccountType::SpotBidsTree),
            15u32 => Some(AccountType::SpotAsksTree),
            16u32 => Some(AccountType::SpotBidOrders),
            17u32 => Some(AccountType::SpotAskOrders),
            18u32 => Some(AccountType::SpotLines),
            19u32 => Some(AccountType::Spot1MCandles),
            20u32 => Some(AccountType::Spot15MCandles),
            21u32 => Some(AccountType::SpotDayCandles),
            31u32 => Some(AccountType::ClientPrimary),
            34u32 => Some(AccountType::Community),
            35u32 => Some(AccountType::ClientCommunity),
            36u32 => Some(AccountType::PerpAskOrders),
            37u32 => Some(AccountType::PerpAsksTree),
            38u32 => Some(AccountType::PerpBidOrders),
            39u32 => Some(AccountType::PerpBidsTree),
            40u32 => Some(AccountType::PerpClientAccounts),
            41u32 => Some(AccountType::PerpClientInfos),
            42u32 => Some(AccountType::PerpClientInfos2),
            43u32 => Some(AccountType::PerpClientInfos3),
            44u32 => Some(AccountType::PerpClientInfos4),
            45u32 => Some(AccountType::PerpClientInfos5),
            46u32 => Some(AccountType::PerpLines),
            47u32 => Some(AccountType::PerpMaps),
            48u32 => Some(AccountType::PerpLongPxTree),
            49u32 => Some(AccountType::PerpShortPxTree),
            50u32 => Some(AccountType::PerpRebalanceTimeTree),
            51u32 => Some(AccountType::PrivateClients),
            _ => None,
        }
    }

    pub fn as_tag(self) -> (r: u32)
        ensures
            r == self.spec_as_tag(),
    {
        match self {
            AccountType::Holder => 1,
            AccountType::Root => 2,
            AccountType::Token => 4,
            AccountType::Instr => 7,
            AccountType::SpotMaps => 10,
            AccountType::SpotClientAccounts => 11,
            AccountType::SpotClientInfos => 12,
            AccountType::SpotClientInfos2 => 13,
            AccountType::SpotBidsTree => 14,
            AccountType::SpotAsksTree => 15,
            AccountType::SpotBidOrders => 16,
            AccountType::SpotAskOrders => 17,
            AccountType::SpotLines => 18,
            AccountType::Spot1MCandles => 19,
            AccountType::Spot15MCandles => 20,
            AccountType::SpotDayCandles => 21,
            AccountType::ClientPrimary => 31,
            AccountType::Community => 34,
            AccountType::ClientCommunity => 35,
            AccountType::PerpAskOrders => 36,
            AccountType::PerpAsksTree => 37,
            AccountType::PerpBidOrders => 38,
            AccountType::PerpBidsTree => 39,
            AccountType::PerpClientAccounts => 40,
            AccountType::PerpClientInfos => 41,
            AccountType::PerpClientInfos2 => 42,
            AccountType::PerpClientInfos3 => 43,
            AccountType::PerpClientInfos4 => 44,
            AccountType::PerpClientInfos5 => 45,
            AccountType::PerpLines => 46,
            AccountType::PerpMaps => 47,
            AccountType::PerpLongPxTree => 48,
            AccountType::PerpShortPxTree => 49,
            AccountType::PerpRebalanceTimeTree => 50,
            AccountType::PrivateClients => 51,
            AccountType::ProgramTokenAccount => 52,
            AccountType::DrvsAuthority => 53,
        }
    }

    /// Parses a stored tag; rejects every value that no account kind uses.
    pub fn from_tag(value: u32) -> (r: Option<AccountType>)
        ensures
            r == Self::spec_from_tag(value),
    {
        match value {
            1 => Some(AccountType::Holder),
            2 => Some(AccountType::Root),
            4 => Some(AccountType::Token),
            7 => Some(AccountType::Instr),
            10 => Some(AccountType::SpotMaps),
            11 => Some(AccountType::SpotClientAccounts),
            12 => Some(AccountType::SpotClientInfos),
            13 => Some(AccountType::SpotClientInfos2),
            14 => Some(AccountType::SpotBidsTree),
            15 => Some(AccountType::SpotAsksTree),
            16 => Some(AccountType::SpotBidOrders),
            17 => Some(AccountType::SpotAskOrders),
            18 => Some(AccountType::SpotLines),
            19 => Some(AccountType::Spot1MCandles),
            20 => Some(AccountType::Spot15MCandles),
            21 => Some(AccountType::SpotDayCandles),
            31 => Some(AccountType::ClientPrimary),
            34 => Some(AccountType::Community),
            35 => Some(AccountType::ClientCommunity),
            36 => Some(AccountType::PerpAskOrders),
            37 => Some(AccountType::PerpAsksTree),
            38 => Some(AccountType::PerpBidOrders),
            39 => Some(AccountType::PerpBidsTree),
            40 => Some(AccountType::PerpClientAccounts),
            41 => Some(AccountType::PerpClientInfos),
            42 => Some(AccountType::PerpClientInfos2),
            43 => Some(AccountType::PerpClientInfos3),
            44 => Some(AccountType::PerpClientInfos4),
            45 => Some(AccountType::PerpClientInfos5),
            46 => Some(AccountType::PerpLines),
            47 => Some(AccountType::PerpMaps),
            48 => Some(AccountType::PerpLongPxTree),
            49 => Some(AccountType::PerpShortPxTree),
            50 => Some(AccountType::PerpRebalanceTimeTree),
            51 => Some(AccountType::PrivateClients),
            _ => None,
        }
    }
}

/// Parsing a stored tag undoes `as_tag` for every kind that owns a tag;
/// the two diagnostic-only kinds are never parsed back.
pub proof fn lemma_account_type_tag_roundtrip(t: AccountType)
    ensures
        t != AccountType::ProgramTokenAccount && t != AccountType::DrvsAuthority
            ==> AccountType::spec_from_tag(t.spec_as_tag()) == Some(t),
        AccountType::spec_from_tag(AccountType::ProgramTokenAccount.spec_as_tag()).is_none(),
        AccountType::spec_from_tag(AccountType::DrvsAuthority.spec_as_tag()).is_none(),
{
}

impl AccountType {
    /// The name of this account kind.
    pub open spec fn spec_name(self) -> Seq<char> {
        match self {
            AccountType::Holder => "Holder"@,
            AccountType::Root => "Root"@,
            AccountType::Token => "Token"@,
            AccountType::Instr => "Instr"@,
            AccountType::SpotMaps => "SpotMaps"@,
            AccountType::SpotClientAccounts => "SpotClientAccounts"@,
            AccountType::SpotClientInfos => "SpotClientInfos"@,
            AccountType::SpotClientInfos2 => "SpotClientInfos2"@,
            AccountType::SpotBidsTree => "SpotBidsTree"@,
            AccountType::SpotAsksTree => "SpotAsksTree"@,
            AccountType::SpotBidOrders => "SpotBidOrders"@,
            AccountType::SpotAskOrders => "SpotAskOrders"@,
            AccountType::SpotLines => "SpotLines"@,
            AccountType::Spot1MCandles => "Spot1MCandles"@,
            AccountType::Spot15MCandles => "Spot15MCandles"@,
            AccountType::SpotDayCandles => "SpotDayCandles"@,
            AccountType::ClientPrimary => "ClientPrimary"@,
            AccountType::Community => "Community"@,
            AccountType::ClientCommunity => "ClientCommunity"@,
            AccountType::PerpAskOrders => "PerpAskOrders"@,
            AccountType::PerpAsksTree => "PerpAsksTree"@,
            AccountType::PerpBidOrders => "PerpBidOrders"@,
            AccountType::PerpBidsTree => "PerpBidsTree"@,
            AccountType::PerpClientAccounts => "PerpClientAccounts"@,
            AccountType::PerpClientInfos => "PerpClientInfos"@,
            AccountType::PerpClientInfos2 => "PerpClientInfos2"@,
            AccountType::PerpClientInfos3 => "PerpClientInfos3"@,
            AccountType::PerpClientInfos4 => "PerpClientInfos4"@,
            AccountType::PerpClientInfos5 => "PerpClientInfos5"@,
            AccountType::PerpLines => "PerpLines"@,
            AccountType::PerpMaps => "PerpMaps"@,
            AccountType::PerpLongPxTree => "PerpLongPxTree"@,
            AccountType::PerpShortPxTree => "PerpShortPxTree"@,
            AccountType::PerpRebalanceTimeTree => "PerpRebalanceTimeTree"@,
            AccountType::PrivateClients => "PrivateClients"@,
            AccountType::ProgramTokenAccount => "ProgramTokenAccount"@,
            AccountType::DrvsAuthority => "DrvsAuthority"@,
        }
    }

    /// The rendering of this account kind in diagnostics: its name
    /// followed by its tag in parentheses.
    pub open spec fn spec_text(self) -> Seq<char> {
        self.spec_name() + "("@ + spec_dec(self.spec_as_tag() as nat) + ")"@
    }

    fn name_str(&self) -> (r: &'static str)
        ensures
            r@ == self.spec_name(),
    {
        match self {
            AccountType::Holder => "Holder",
            AccountType::Root => "Root",
            AccountType::Token => "Token",
            AccountType::Instr => "Instr",
            AccountType::SpotMaps => "SpotMaps",
            AccountType::SpotClientAccounts => "SpotClientAccounts",
            AccountType::SpotClientInfos => "SpotClientInfos",
            AccountType::SpotClientInfos2 => "SpotClientInfos2",
            AccountType::SpotBidsTree => "SpotBidsTree",
            AccountType::SpotAsksTree => "SpotAsksTree",
            AccountType::SpotBidOrders => "SpotBidOrders",
            AccountType::SpotAskOrders => "SpotAskOrders",
            AccountType::SpotLines => "SpotLines",
            AccountType::Spot1MCandles => "Spot1MCandles",
            AccountType::Spot15MCandles => "Spot15MCandles",
            AccountType::SpotDayCandles => "SpotDayCandles",
            AccountType::ClientPrimary => "ClientPrimary",
            AccountType::Community => "Community",
            AccountType::ClientCommunity => "ClientCommunity",
            AccountType::PerpAskOrders => "PerpAskOrders",
            AccountType::PerpAsksTree => "PerpAsksTree",
            AccountType::PerpBidOrders => "PerpBidOrders",
            AccountType::PerpBidsTree => "PerpBidsTree",
            AccountType::PerpClientAccounts => "PerpClientAccounts",
            AccountType::PerpClientInfos => "PerpClientInfos",
            AccountType::PerpClientInfos2 => "PerpClientInfos2",
            AccountType::PerpClientInfos3 => "PerpClientInfos3",
            AccountType::PerpClientInfos4 => "PerpClientInfos4",
            AccountType::PerpClientInfos5 => "PerpClientInfos5",
            AccountType::PerpLines => "PerpLines",
            AccountType::PerpMaps => "PerpMaps",
            AccountType::PerpLongPxTree => "PerpLongPxTree",
            AccountType::PerpShortPxTree => "PerpShortPxTree",
            AccountType::PerpRebalanceTimeTree => "PerpRebalanceTimeTree",
            AccountType::PrivateClients => "PrivateClients",
            AccountType::ProgramTokenAccount => "ProgramTokenAccount",
            AccountType::DrvsAuthority => "DrvsAuthority",
        }
    }

    /// Renders the bare name of this account kind.
    pub fn name_text(&self) -> (r: String)
        ensures
            r@ == self.spec_name(),
    {
        String::from_str(self.name_str())
    }

    /// Renders this account kind for diagnostics.
    pub fn text(&self) -> (r: String)
        ensures
            r@ == self.spec_text(),
    {
        let mut s = String::from_str(self.name_str());
        s.append("(");
        s.append(u32_to_string(self.as_tag()).as_str());
        s.append(")");
        s
    }
}

impl OrderSide {
    /// The rendering of this value in diagnostics.
    pub open spec fn spec_text(self) -> Seq<char> {
        match self {
            OrderSide::Bid => "Bid"@,
            OrderSide::Ask => "Ask"@,
        }
    }

    /// Renders this value for diagnostics.
    pub fn text(&self) -> (r: String)
        ensures
            r@ == self.spec_text(),
    {
        let s = match self {
            OrderSide::Bid => "Bid",
            OrderSide::Ask => "Ask",
        };
        String::from_str(s)
    }
}

impl OrderType {
    /// The rendering of this value in diagnostics.
    pub open spec fn spec_text(self) -> Seq<char> {
        match self {
            OrderType::Limit => "Limit"@,
            OrderType::Market => "Market"@,
            OrderType::MarginCall => "Margin Call"@,
        }
    }

    /// Renders this value for diagnostics.
    pub fn text(&self) -> (r: String)
        ensures
            r@ == self.spec_text(),
    {
        let s = match self {
            OrderType::Limit => "Limit",
            OrderType::Market => "Market",
            OrderType::MarginCall => "Margin Call",
        };
        String::from_str(s)
    }
}

impl MarketSeatOrderType {
    /// The rendering of this value in diagnostics.
    pub open spec fn spec_text(self) -> Seq<char> {
        match self {
            MarketSeatOrderType::Buy => "Buy"@,
            MarketSeatOrderType::Sell => "Sell"@,
        }
    }

    /// Renders this value for diagnostics.
    pub fn text(&self) -> (r: String)
        ensures
            r@ == self.spec_text(),
    {
        let s = match self {
            MarketSeatOrderType::Buy => "Buy",
            MarketSeatOrderType::Sell => "Sell",
        };
        String::from_str(s)
    }
}

impl TokenProgram {
    /// The rendering of this value in diagnostics.
    pub open spec fn spec_text(self) -> Seq<char> {
        match self {
            TokenProgram::Original => "Original"@,
            TokenProgram::Token2022 => "Token2022"@,
        }
    }

    /// Renders this value for diagnostics.
    pub fn text(&self) -> (r: String)
        ensures
            r@ == self.spec_text(),
    {
        let s = match self {
            TokenProgram::Original => "Original",
            TokenProgram::Token2022 => "Token2022",
        };
        String::from_str(s)
    }
}

impl AssetType {
    /// The rendering of this value in diagnostics.
    pub open spec fn spec_text(self) -> Seq<char> {
        match self {
            AssetType::Token => "Token"@,
            AssetType::SpotLp => "SpotLp"@,
            AssetType::SpotOrders => "SpotOrders"@,
            AssetType::Perp => "Perp"@,
        }
    }

    /// Renders this value for diagnostics.
    pub fn text(&self) -> (r: String)
        ensures
            r@ == self.spec_text(),
    {
        let s = match self {
            AssetType::Token => "Token",
            AssetType::SpotLp => "SpotLp",
            AssetType::SpotOrders => "SpotOrders",
            AssetType::Perp => "Perp",
        };
        String::from_str(s)
    }
}

impl Address {
    /// The rendering of an address in diagnostics: its bytes in hex.  The
    /// host renders addresses in its own base58 alphabet; this layer only
    /// needs an unambiguous form.
    pub open spec fn spec_text(self) -> Seq<char> {
        spec_hex_bytes(self.0@)
    }

    /// Renders this address for diagnostics.
    pub fn text(&self) -> (r: String)
        ensures
            r@ == self.spec_text(),
    {
        bytes_to_hex(self.0.as_slice())
    }
}

/// Spot membership record of a client: the asset entry and the
/// temporary slot id assigned inside the spot trading account.
#[derive(Clone, Copy, Debug, PartialEq)]
pub struct ClientSpot {
    pub asset_id: u32,
    pub temp_client_id: u32,
    pub slot: u32,
    pub padding: u32,
}

pub const CLIENT_SPOT_SIZE: usize = 16;

impl ClientSpot {
    /// The `ClientSpot` image that starts at byte offset `off` of a buffer.
    pub open spec fn wire_at(b: Seq<u8>, off: int) -> ClientSpot {
        ClientSpot {
            asset_id: spec_u32_from_le_bytes(b.subrange(off, off + 4)),
            temp_client_id: spec_u32_from_le_bytes(b.subrange(off + 4, off + 8)),
            slot: spec_u32_from_le_bytes(b.subrange(off + 8, off + 12)),
            padding: spec_u32_from_le_bytes(b.subrange(off + 12, off + 16)),
        }
    }

    pub fn read_at(b: &[u8], off: usize) -> (r: ClientSpot)
        requires
            off + CLIENT_SPOT_SIZE <= b@.len(),
        ensures
            r == Self::wire_at(b@, off as int),
    {
        let n = b.len();
        assert(off + 16 <= n);
        ClientSpot {
            asset_id: read_u32(b, off),
            temp_client_id: read_u32(b, off + 4),
            slot: read_u32(b, off + 8),
            padding: read_u32(b, off + 12),
        }
    }

    pub fn write(&self, out: &mut Vec<u8>)
        ensures
            final(out)@.len() == old(out)@.len() + CLIENT_SPOT_SIZE,
            final(out)@.subrange(0, old(out)@.len() as int) == old(out)@,
            Self::wire_at(final(out)@, old(out)@.len() as int) == *self,
    {
        let ghost base = out@;
        put_u32(out, self.asset_id);
        put_u32(out, self.temp_client_id);
        put_u32(out, self.slot);
        put_u32(out, self.padding);
        proof {
            lemma_auto_spec_u16_to_from_le_bytes();
            lemma_auto_spec_u32_to_from_le_bytes();
            lemma_auto_spec_u64_to_from_le_bytes();
            lemma_auto_spec_i64_to_from_le_bytes();
            assert(out@ == base + spec_u32_to_le_bytes(self.asset_id) + spec_u32_to_le_bytes(self.temp_client_id) + spec_u32_to_le_bytes(self.slot) + spec_u32_to_le_bytes(self.padding));
            assert(out@.subrange(base.len() as int, base.len() as int + 4) =~= spec_u32_to_le_bytes(self.asset_id));
            assert(out@.subrange(base.len() as int + 4, base.len() as int + 8) =~= spec_u32_to_le_bytes(self.temp_client_id));
            assert(out@.subrange(base.len() as int + 8, base.len() as int + 12) =~= spec_u32_to_le_bytes(self.slot));
            assert(out@.subrange(base.len() as int + 12, base.len() as int + 16) =~= spec_u32_to_le_bytes(self.padding));
            assert(out@.subrange(0, base.len() as int) =~= base);
            assert(Self::wire_at(out@, base.len() as int) == *self);
        }
    }

    pub fn encode(&self) -> (r: Vec<u8>)
        ensures
            r@.len() == CLIENT_SPOT_SIZE,
            Self::wire_at(r@, 0) == *self,
    {
        let mut out: Vec<u8> = Vec::new();
        self.write(&mut out);
        out
    }
}

/// Perp membership record of a client: the asset entry and the
/// temporary slot id assigned inside the perp trading account.
#[derive(Clone, Copy, Debug, PartialEq)]
pub struct ClientPerp {
    pub asset_id: u32,
    pub temp_client_id: u32,
    pub slot: u32,
    pub padding: u32,
}

pub const CLIENT_PERP_SIZE: usize = 16;

impl ClientPerp {
    /// The `ClientPerp` image that starts at byte offset `off` of a buffer.
    pub open spec fn wire_at(b: Seq<u8>, off: int) -> ClientPerp {
        ClientPerp {
            asset_id: spec_u32_from_le_bytes(b.subrange(off, off + 4)),
            temp_client_id: spec_u32_from_le_bytes(b.subrange(off + 4, off + 8)),
            slot: spec_u32_from_le_bytes(b.subrange(off + 8, off + 12)),
            padding: spec_u32_from_le_bytes(b.subrange(off + 12, off + 16)),
        }
    }

    pub fn read_at(b: &[u8], off: usize) -> (r: ClientPerp)
        requires
            off + CLIENT_PERP_SIZE <= b@.len(),
        ensures
            r == Self::wire_at(b@, off as int),
    {
        let n = b.len();
        assert(off + 16 <= n);
        ClientPerp {
            asset_id: read_u32(b, off),
            temp_client_id: read_u32(b, off + 4),
            slot: read_u32(b, off + 8),
            padding: read_u32(b, off + 12),
        }
    }

    pub fn write(&self, out: &mut Vec<u8>)
        ensures
            final(out)@.len() == old(out)@.len() + CLIENT_PERP_SIZE,
            final(out)@.subrange(0, old(out)@.len() as int) == old(out)@,
            Self::wire_at(final(out)@, old(out)@.len() as int) == *self,
    {
        let ghost base = out@;
        put_u32(out, self.asset_id);
        put_u32(out, self.temp_client_id);
        put_u32(out, self.slot);
        put_u32(out, self.padding);
        proof {
            lemma_auto_spec_u16_to_from_le_bytes();
            lemma_auto_spec_u32_to_from_le_bytes();
            lemma_auto_spec_u64_to_from_le_bytes();
            lemma_auto_spec_i64_to_from_le_bytes();
            assert(out@ == base + spec_u32_to_le_bytes(self.asset_id) + spec_u32_to_le_bytes(self.temp_client_id) + spec_u32_to_le_bytes(self.slot) + spec_u32_to_le_bytes(self.padding));
            assert(out@.subrange(base.len() as int, base.len() as int + 4) =~= spec_u32_to_le_bytes(self.asset_id));
            assert(out@.subrange(base.len() as int + 4, base.len() as int + 8) =~= spec_u32_to_le_bytes(self.temp_client_id));
            assert(out@.subrange(base.len() as int + 8, base.len() as int + 12) =~= spec_u32_to_le_bytes(self.slot));
            assert(out@.subrange(base.len() as int + 12, base.len() as int + 16) =~= spec_u32_to_le_bytes(self.padding));
            assert(out@.subrange(0, base.len() as int) =~= base);
            assert(Self::wire_at(out@, base.len() as int) == *self);
        }
    }

    pub fn encode(&self) -> (r: Vec<u8>)
        ensures
            r@.len() == CLIENT_PERP_SIZE,
            Self::wire_at(r@, 0) == *self,
    {
        let mut out: Vec<u8> = Vec::new();
        self.write(&mut out);
        out
    }
}

} // verus!
