//! Textual form of a decoded event, ready to be bound to the insert
//! statement: every byte field as a lowercase hex literal ("0x" and
//! two digits per byte), so that a 256-bit quantity is carried in full
//! and never truncated to a machine word.
use crate::decode::UserOperationEvent;
use vstd::prelude::*;
use vstd::string::StringExecFns;

verus! {

/// The lowercase hex digit of a nibble.
pub open spec fn hex_digit(n: u8) -> char {
    if n == 0 {
        '0'
    } else if n == 1 {
        '1'
    } else if n == 2 {
        '2'
    } else if n == 3 {
        '3'
    } else if n == 4 {
        '4'
    } else if n == 5 {
        '5'
    } else if n == 6 {
        '6'
    } else if n == 7 {
        '7'
    } else if n == 8 {
        '8'
    } else if n == 9 {
        '9'
    } else if n == 10 {
        'a'
    } else if n == 11 {
        'b'
    } else if n == 12 {
        'c'
    } else if n == 13 {
        'd'
    } else if n == 14 {
        'e'
    } else {
        'f'
    }
}

/// The lowercase hex digits of a byte sequence, two per byte, high
/// nibble first.
pub open spec fn hex_of(bytes: Seq<u8>) -> Seq<char>
    decreases bytes.len(),
{
    if bytes.len() == 0 {
        Seq::<char>::empty()
    } else {
        hex_of(bytes.drop_last()).push(hex_digit((bytes.last() / 16) as u8)).push(
            hex_digit((bytes.last() % 16) as u8),
        )
    }
}

/// A hex literal: "0x" followed by the digits of the bytes.
pub open spec fn hex_literal_of(bytes: Seq<u8>) -> Seq<char> {
    seq!['0', 'x'] + hex_of(bytes)
}

/// Append the digit of one nibble.
fn push_hex_digit(s: &mut String, n: u8)
    requires
        n < 16,
    ensures
        final(s)@ == old(s)@.push(hex_digit(n)),
{
    let ghost s0 = s@;
    if n == 0 {
        s.append("0");
        proof {
            reveal_strlit("0");
            assert(s@ =~= s0.push('0'));
        }
    } else if n == 1 {
        s.append("1");
        proof {
            reveal_strlit("1");
            assert(s@ =~= s0.push('1'));
        }
    } else if n == 2 {
        s.append("2");
        proof {
            reveal_strlit("2");
            assert(s@ =~= s0.push('2'));
        }
    } else if n == 3 {
        s.append("3");
        proof {
            reveal_strlit("3");
            assert(s@ =~= s0.push('3'));
        }
    } else if n == 4 {
        s.append("4");
        proof {
            reveal_strlit("4");
            assert(s@ =~= s0.push('4'));
        }
    } else if n == 5 {
        s.append("5");
        proof {
            reveal_strlit("5");
            assert(s@ =~= s0.push('5'));
        }
    } else if n == 6 {
        s.append("6");
        proof {
            reveal_strlit("6");
            assert(s@ =~= s0.push('6'));
        }
    } else if n == 7 {
        s.append("7");
        proof {
            reveal_strlit("7");
            assert(s@ =~= s0.push('7'));
        }
    } else if n == 8 {
        s.append("8");
        proof {
            reveal_strlit("8");
            assert(s@ =~= s0.push('8'));
        }
    } else if n == 9 {
        s.append("9");
        proof {
            reveal_strlit("9");
            assert(s@ =~= s0.push('9'));
        }
    } else if n == 10 {
        s.append("a");
        proof {
            reveal_strlit("a");
            assert(s@ =~= s0.push('a'));
        }
    } else if n == 11 {
        s.append("b");
        proof {
            reveal_strlit("b");
            assert(s@ =~= s0.push('b'));
        }
    } else if n == 12 {
        s.append("c");
        proof {
            reveal_strlit("c");
            assert(s@ =~= s0.push('c'));
        }
    } else if n == 13 {
        s.append("d");
        proof {
            reveal_strlit("d");
            assert(s@ =~= s0.push('d'));
        }
    } else if n == 14 {
        s.append("e");
        proof {
            reveal_strlit("e");
            assert(s@ =~= s0.push('e'));
        }
    } else {
        s.append("f");
        proof {
            reveal_strlit("f");
            assert(s@ =~= s0.push('f'));
        }
    }
}

/// The hex literal of a byte vector.
pub fn to_hex_literal(bytes: &Vec<u8>) -> (s: String)
    ensures
        s@ == hex_literal_of(bytes@),
{
    let mut s = String::new();
    s.append("0x");
    proof {
        reveal_strlit("0x");
        assert(s@ =~= seq!['0', 'x'] + hex_of(bytes@.take(0)));
    }
    let mut i: usize = 0;
    while i < bytes.len()
        invariant
            i <= bytes@.len(),
            s@ == seq!['0', 'x'] + hex_of(bytes@.take(i as int)),
        decreases bytes@.len() - i,
    {
        let b = bytes[i];
        push_hex_digit(&mut s, b / 16);
        push_hex_digit(&mut s, b % 16);
        proof {
            let t1 = bytes@.take(i + 1 as int);
            assert(t1.drop_last() =~= bytes@.take(i as int));
            assert(t1.last() == b);
            assert(s@ =~= seq!['0', 'x'] + hex_of(t1));
        }
        i += 1;
    }
    proof {
        assert(bytes@.take(bytes@.len() as int) =~= bytes@);
    }
    s
}

/// One row in the textual shape the insert statement takes it.
pub struct EventRowText {
    pub user_op_hash: String,
    pub sender: String,
    pub paymaster: String,
    pub nonce: String,
    pub success: bool,
    pub actual_gas_cost: String,
    pub actual_gas_used: String,
    pub block_number: u64,
}

/// Render one decoded event as the textual row it is persisted as:
/// every byte field becomes its hex literal, consistently formatted,
/// so that equal values always render equally (the natural-key columns
/// dedup on this text).
pub fn render_row(ev: &UserOperationEvent, block_number: u64) -> (r: EventRowText)
    ensures
        r.user_op_hash@ == hex_literal_of(ev.user_op_hash@),
        r.sender@ == hex_literal_of(ev.sender@),
        r.paymaster@ == hex_literal_of(ev.paymaster@),
        r.nonce@ == hex_literal_of(ev.nonce@),
        r.success == ev.success,
        r.actual_gas_cost@ == hex_literal_of(ev.actual_gas_cost@),
        r.actual_gas_used@ == hex_literal_of(ev.actual_gas_used@),
        r.block_number == block_number,
{
    EventRowText {
        user_op_hash: to_hex_literal(&ev.user_op_hash),
        sender: to_hex_literal(&ev.sender),
        paymaster: to_hex_literal(&ev.paymaster),
        nonce: to_hex_literal(&ev.nonce),
        success: ev.success,
        actual_gas_cost: to_hex_literal(&ev.actual_gas_cost),
        actual_gas_used: to_hex_literal(&ev.actual_gas_used),
        block_number,
    }
}

/// Hex rendering is injective in the bytes: two byte sequences render
/// to the same digits only when they are the same sequence, so the
/// rendered natural key collides exactly when the byte-level key does.
pub proof fn lemma_hex_injective(a: Seq<u8>, b: Seq<u8>)
    requires
        hex_of(a) == hex_of(b),
    ensures
        a == b,
    decreases a.len(),
{
    assert(hex_of(a).len() == 2 * a.len()) by {
        lemma_hex_len(a);
    }
    assert(hex_of(b).len() == 2 * b.len()) by {
        lemma_hex_len(b);
    }
    if a.len() == 0 {
        assert(a =~= b);
    } else {
        let da = a.last();
        let db = b.last();
        assert(hex_of(a).last() == hex_digit((da % 16) as u8));
        assert(hex_of(b).last() == hex_digit((db % 16) as u8));
        assert(hex_of(a)[hex_of(a).len() - 2] == hex_digit((da / 16) as u8));
        assert(hex_of(b)[hex_of(b).len() - 2] == hex_digit((db / 16) as u8));
        lemma_hex_digit_injective((da / 16) as u8, (db / 16) as u8);
        lemma_hex_digit_injective((da % 16) as u8, (db % 16) as u8);
        assert(da == db);
        assert(hex_of(a).take(hex_of(a).len() - 2) =~= hex_of(a.drop_last()));
        assert(hex_of(b).take(hex_of(b).len() - 2) =~= hex_of(b.drop_last()));
        lemma_hex_injective(a.drop_last(), b.drop_last());
        assert(a =~= a.drop_last().push(da));
        assert(b =~= b.drop_last().push(db));
    }
}

/// Two digits per byte.
pub proof fn lemma_hex_len(bytes: Seq<u8>)
    ensures
        hex_of(bytes).len() == 2 * bytes.len(),
    decreases bytes.len(),
{
    if bytes.len() > 0 {
        lemma_hex_len(bytes.drop_last());
    }
}

/// Distinct nibbles have distinct digits.
proof fn lemma_hex_digit_injective(m: u8, n: u8)
    requires
        m < 16,
        n < 16,
        hex_digit(m) == hex_digit(n),
    ensures
        m == n,
{
}

} // verus!
