//! Model of the persistence sink: a store of durable rows with an
//! idempotent conditional insert keyed by the natural key
//! (user_op_hash, nonce). A row is append-only and immutable once
//! committed; a second write under the same key is absorbed as a
//! duplicate, never an error.
use crate::decode::bytes_range;
use crate::decode::UserOpEventView;
use crate::decode::UserOperationEvent;
use vstd::prelude::*;

verus! {

/// Outcome of one persistence attempt.
#[derive(Clone, Copy, Debug, PartialEq, Eq, Structural)]
pub enum PersistOutcome {
    /// No row existed under the natural key; one durable row was written.
    Inserted,
    /// A row already existed under the natural key; nothing was touched.
    Duplicate,
}

/// One durable row: the decoded event together with the block height
/// it was emitted at.
pub struct StoredRow {
    pub user_op_hash: Vec<u8>,
    pub sender: Vec<u8>,
    pub paymaster: Vec<u8>,
    pub nonce: Vec<u8>,
    pub success: bool,
    pub actual_gas_cost: Vec<u8>,
    pub actual_gas_used: Vec<u8>,
    pub block_number: u64,
}

/// Mathematical image of one stored row.
pub struct RowView {
    pub user_op_hash: Seq<u8>,
    pub sender: Seq<u8>,
    pub paymaster: Seq<u8>,
    pub nonce: Seq<u8>,
    pub success: bool,
    pub actual_gas_cost: Seq<u8>,
    pub actual_gas_used: Seq<u8>,
    pub block_number: u64,
}

impl View for StoredRow {
    type V = RowView;

    open spec fn view(&self) -> RowView {
        RowView {
            user_op_hash: self.user_op_hash@,
            sender: self.sender@,
            paymaster: self.paymaster@,
            nonce: self.nonce@,
            success: self.success,
            actual_gas_cost: self.actual_gas_cost@,
            actual_gas_used: self.actual_gas_used@,
            block_number: self.block_number,
        }
    }
}

/// The row a decoded event is stored as.
pub open spec fn row_of(ev: UserOpEventView, block_number: u64) -> RowView {
    RowView {
        user_op_hash: ev.user_op_hash,
        sender: ev.sender,
        paymaster: ev.paymaster,
        nonce: ev.nonce,
        success: ev.success,
        actual_gas_cost: ev.actual_gas_cost,
        actual_gas_used: ev.actual_gas_used,
        block_number,
    }
}

/// Whether a row carries the given natural key.
pub open spec fn key_matches(row: RowView, user_op_hash: Seq<u8>, nonce: Seq<u8>) -> bool {
    row.user_op_hash == user_op_hash && row.nonce == nonce
}

/// Whether some row of the store carries the given natural key.
pub open spec fn has_key(rows: Seq<RowView>, user_op_hash: Seq<u8>, nonce: Seq<u8>) -> bool {
    exists|i: int| 0 <= i < rows.len() && key_matches(#[trigger] rows[i], user_op_hash, nonce)
}

/// How many rows of the store carry the given natural key.
pub open spec fn key_count(rows: Seq<RowView>, user_op_hash: Seq<u8>, nonce: Seq<u8>) -> nat
    decreases rows.len(),
{
    if rows.len() == 0 {
        0
    } else {
        key_count(rows.drop_last(), user_op_hash, nonce) + if key_matches(
            rows.last(),
            user_op_hash,
            nonce,
        ) {
            1nat
        } else {
            0nat
        }
    }
}

/// The conditional insert: a new row is appended when no row carries
/// its natural key; otherwise the store is left untouched and the
/// attempt reports a duplicate.
pub open spec fn spec_persist(rows: Seq<RowView>, row: RowView) -> (Seq<RowView>, PersistOutcome) {
    if has_key(rows, row.user_op_hash, row.nonce) {
        (rows, PersistOutcome::Duplicate)
    } else {
        (rows.push(row), PersistOutcome::Inserted)
    }
}

/// Byte-for-byte equality of two byte vectors.
pub fn bytes_eq(a: &Vec<u8>, b: &Vec<u8>) -> (r: bool)
    ensures
        r == (a@ == b@),
{
    if a.len() != b.len() {
        return false;
    }
    let mut i: usize = 0;
    while i < a.len()
        invariant
            i <= a@.len(),
            a@.len() == b@.len(),
            forall|j: int| 0 <= j < i ==> a@[j] == b@[j],
        decreases a@.len() - i,
    {
        if a[i] != b[i] {
            return false;
        }
        i += 1;
    }
    proof {
        assert(a@ =~= b@);
    }
    true
}

/// The store of durable rows, in insertion order.
pub struct EventStore {
    pub rows: Vec<StoredRow>,
}

impl View for EventStore {
    type V = Seq<RowView>;

    open spec fn view(&self) -> Seq<RowView> {
        self.rows@.map_values(|r: StoredRow| r@)
    }
}

impl EventStore {
    /// An empty store.
    pub fn new() -> (s: Self)
        ensures
            s@ == Seq::<RowView>::empty(),
    {
        let s = EventStore { rows: Vec::new() };
        proof {
            assert(s@ =~= Seq::<RowView>::empty());
        }
        s
    }

    /// Number of durable rows.
    pub fn len(&self) -> (n: usize)
        ensures
            n == self@.len(),
    {
        self.rows.len()
    }

    /// Whether some row carries the given natural key.
    pub fn contains_key(&self, user_op_hash: &Vec<u8>, nonce: &Vec<u8>) -> (found: bool)
        ensures
            found == has_key(self@, user_op_hash@, nonce@),
    {
        let mut i: usize = 0;
        while i < self.rows.len()
            invariant
                i <= self.rows@.len(),
                forall|j: int| 0 <= j < i ==> !key_matches(self@[j], user_op_hash@, nonce@),
            decreases self.rows@.len() - i,
        {
            if bytes_eq(&self.rows[i].user_op_hash, user_op_hash) && bytes_eq(
                &self.rows[i].nonce,
                nonce,
            ) {
                proof {
                    assert(key_matches(self@[i as int], user_op_hash@, nonce@));
                }
                return true;
            }
            i += 1;
        }
        false
    }

    /// Persist one decoded event under its natural key: insert a row
    /// when the key is new, absorb the attempt as a duplicate when it
    /// is not. Never errors on a duplicate, and never touches an
    /// existing row.
    pub fn persist_event(&mut self, ev: &UserOperationEvent, block_number: u64) -> (o:
        PersistOutcome)
        ensures
            (final(self)@, o) == spec_persist(old(self)@, row_of(ev@, block_number)),
    {
        let found = self.contains_key(&ev.user_op_hash, &ev.nonce);
        if found {
            PersistOutcome::Duplicate
        } else {
            let row = StoredRow {
                user_op_hash: bytes_range(&ev.user_op_hash, 0, ev.user_op_hash.len()),
                sender: bytes_range(&ev.sender, 0, ev.sender.len()),
                paymaster: bytes_range(&ev.paymaster, 0, ev.paymaster.len()),
                nonce: bytes_range(&ev.nonce, 0, ev.nonce.len()),
                success: ev.success,
                actual_gas_cost: bytes_range(&ev.actual_gas_cost, 0, ev.actual_gas_cost.len()),
                actual_gas_used: bytes_range(&ev.actual_gas_used, 0, ev.actual_gas_used.len()),
                block_number,
            };
            proof {
                assert(ev.user_op_hash@.subrange(0, ev.user_op_hash@.len() as int) =~= ev.user_op_hash@);
                assert(ev.sender@.subrange(0, ev.sender@.len() as int) =~= ev.sender@);
                assert(ev.paymaster@.subrange(0, ev.paymaster@.len() as int) =~= ev.paymaster@);
                assert(ev.nonce@.subrange(0, ev.nonce@.len() as int) =~= ev.nonce@);
                assert(ev.actual_gas_cost@.subrange(0, ev.actual_gas_cost@.len() as int)
                    =~= ev.actual_gas_cost@);
                assert(ev.actual_gas_used@.subrange(0, ev.actual_gas_used@.len() as int)
                    =~= ev.actual_gas_used@);
                assert(row@ == row_of(ev@, block_number));
            }
            let ghost rows0 = self@;
            self.rows.push(row);
            proof {
                assert(self@ =~= rows0.push(row@));
            }
            PersistOutcome::Inserted
        }
    }
}

/// A key occurs in the store exactly when at least one row carries it.
pub proof fn lemma_has_key_iff_count_positive(rows: Seq<RowView>, h: Seq<u8>, n: Seq<u8>)
    ensures
        has_key(rows, h, n) <==> key_count(rows, h, n) > 0,
    decreases rows.len(),
{
    if rows.len() == 0 {
    } else {
        lemma_has_key_iff_count_positive(rows.drop_last(), h, n);
        if key_matches(rows.last(), h, n) {
            assert(key_matches(rows[rows.len() - 1], h, n));
        } else {
            if has_key(rows, h, n) {
                let i = choose|i: int|
                    0 <= i < rows.len() && key_matches(#[trigger] rows[i], h, n);
                assert(i < rows.len() - 1);
                assert(key_matches(rows.drop_last()[i], h, n));
            }
            if has_key(rows.drop_last(), h, n) {
                let i = choose|i: int|
                    0 <= i < rows.drop_last().len() && key_matches(
                        #[trigger] rows.drop_last()[i],
                        h,
                        n,
                    );
                assert(key_matches(rows[i], h, n));
            }
        }
    }
}

/// Persisting appends at most one row and never touches an existing
/// one: a stored row is immutable once committed.
pub proof fn lemma_persist_append_only(rows: Seq<RowView>, row: RowView)
    ensures
        ({
            let (rows2, o) = spec_persist(rows, row);
            &&& rows.len() <= rows2.len() <= rows.len() + 1
            &&& forall|i: int| 0 <= i < rows.len() ==> rows2[i] == rows[i]
        }),
{
}

/// Idempotent persistence: writing the same natural key twice leaves
/// exactly one row for it. The second attempt reports a duplicate,
/// changes nothing, and is not an error.
pub proof fn lemma_persist_idempotent(rows: Seq<RowView>, row: RowView)
    ensures
        ({
            let (rows1, o1) = spec_persist(rows, row);
            let (rows2, o2) = spec_persist(rows1, row);
            &&& rows2 == rows1
            &&& o2 == PersistOutcome::Duplicate
            &&& !has_key(rows, row.user_op_hash, row.nonce) ==> o1 == PersistOutcome::Inserted
                && key_count(rows1, row.user_op_hash, row.nonce) == 1
        }),
{
    let h = row.user_op_hash;
    let n = row.nonce;
    if has_key(rows, h, n) {
    } else {
        let rows1 = rows.push(row);
        assert(key_matches(rows1[rows.len() as int], h, n));
        assert(has_key(rows1, h, n));
        lemma_has_key_iff_count_positive(rows, h, n);
        assert(rows1.drop_last() =~= rows);
        assert(key_count(rows1, h, n) == 1);
    }
}

} // verus!
