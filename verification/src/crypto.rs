//! Account identifiers: 32-byte public keys and their hex representation.
use vstd::prelude::*;

use crate::strings::{
    bytes_to_hex_string, hex_char_val, spec_hex_char_val, spec_hex_digit, spec_hex_of,
    spec_is_hex,
};

verus! {

/// A chain account identifier: a 32-byte public key.
#[derive(Debug)]
pub struct AccountId {
    pub bytes: Vec<u8>,
}

impl Clone for AccountId {
    fn clone(&self) -> (res: Self)
        ensures
            res@ == self@,
    {
        let bytes = self.bytes.clone();
        proof {
            assert(bytes@ =~= self.bytes@);
        }
        AccountId { bytes }
    }
}

impl View for AccountId {
    type V = Seq<u8>;

    open spec fn view(&self) -> Seq<u8> {
        self.bytes@
    }
}

/// The byte string named by a hex digit string (of even length).
pub open spec fn spec_hex_bytes(t: Seq<char>) -> Seq<u8> {
    Seq::new(
        (t.len() / 2) as nat,
        |i: int| (spec_hex_char_val(t[2 * i]) * 16 + spec_hex_char_val(t[2 * i + 1])) as u8,
    )
}

/// A hex string without prefix that names an account id: 64 hex digits.
pub open spec fn spec_is_account_id_hex(t: Seq<char>) -> bool {
    t.len() == 64 && spec_is_hex(t)
}

/// A hex string with the optional `0x` prefix removed.
pub open spec fn spec_strip_hex_prefix(s: Seq<char>) -> Seq<char> {
    if s.len() >= 2 && s[0] == '0' && (s[1] == 'x' || s[1] == 'X') {
        s.subrange(2, s.len() as int)
    } else {
        s
    }
}

proof fn lemma_hex_of_len(b: Seq<u8>)
    ensures
        spec_hex_of(b).len() == 2 * b.len(),
    decreases b.len(),
{
    if b.len() > 0 {
        lemma_hex_of_len(b.drop_last());
    }
}

proof fn lemma_hex_of_index(b: Seq<u8>, i: int)
    requires
        0 <= i < b.len(),
    ensures
        spec_hex_of(b)[2 * i] == spec_hex_digit(b[i] / 16),
        spec_hex_of(b)[2 * i + 1] == spec_hex_digit(b[i] % 16),
    decreases b.len(),
{
    lemma_hex_of_len(b.drop_last());
    if i < b.len() - 1 {
        lemma_hex_of_index(b.drop_last(), i);
    }
}

proof fn lemma_hex_digit_val(x: u8)
    requires
        x < 16,
    ensures
        spec_hex_char_val(spec_hex_digit(x)) == x,
{
}

/// Rendering a byte string in hex and reading it back yields the same bytes.
pub proof fn lemma_hex_round_trip(b: Seq<u8>)
    ensures
        spec_hex_bytes(spec_hex_of(b)) =~= b,
        spec_is_hex(spec_hex_of(b)),
{
    lemma_hex_of_len(b);
    assert forall|i: int| 0 <= i < b.len() implies spec_hex_bytes(spec_hex_of(b))[i] == b[i] by {
        lemma_hex_of_index(b, i);
        lemma_hex_digit_val(b[i] / 16);
        lemma_hex_digit_val(b[i] % 16);
    }
    assert forall|i: int| 0 <= i < spec_hex_of(b).len() implies spec_hex_char_val(
        #[trigger] spec_hex_of(b)[i],
    ) < 16 by {
        let j = i / 2;
        assert(i == 2 * j || i == 2 * j + 1);
        lemma_hex_of_index(b, j);
        lemma_hex_digit_val(b[j] / 16);
        lemma_hex_digit_val(b[j] % 16);
    }
}

impl AccountId {
    /// A well-formed account id holds exactly 32 bytes.
    pub open spec fn wf(&self) -> bool {
        self@.len() == 32
    }

    /// The lower-case hex rendering of this id, as stored in buffer keys
    /// and id sets.
    pub fn to_hex_string(&self) -> (s: String)
        ensures
            s@ == spec_hex_of(self@),
    {
        bytes_to_hex_string(&self.bytes)
    }

    /// Reads an account id from a hex string, with or without a `0x`
    /// prefix. Returns the id exactly when the remainder is 64 hex digits.
    pub fn from_hex_string(s: &str) -> (r: Option<AccountId>)
        ensures
            match r {
                Some(id) => {
                    &&& spec_is_account_id_hex(spec_strip_hex_prefix(s@))
                    &&& id.wf()
                    &&& id@ == spec_hex_bytes(spec_strip_hex_prefix(s@))
                },
                None => !spec_is_account_id_hex(spec_strip_hex_prefix(s@)),
            },
    {
        let len = s.unicode_len();
        let has_prefix = if len >= 2 {
            let c0 = s.get_char(0);
            let c1 = s.get_char(1);
            c0 == '0' && (c1 == 'x' || c1 == 'X')
        } else {
            false
        };
        let start: usize = if has_prefix {
            2
        } else {
            0
        };
        let ghost t = spec_strip_hex_prefix(s@);
        proof {
            assert(t =~= s@.subrange(start as int, s@.len() as int));
        }
        if len - start != 64 {
            return None;
        }
        let mut bytes: Vec<u8> = Vec::new();
        let mut i: usize = 0;
        while i < 32
            invariant
                i <= 32,
                len - start == 64,
                len as nat == s@.len(),
                t =~= s@.subrange(start as int, s@.len() as int),
                start + 64 <= len,
                bytes@.len() == i,
                forall|j: int| 0 <= j < 2 * i ==> spec_hex_char_val(#[trigger] t[j]) < 16,
                forall|j: int|
                    0 <= j < i ==> bytes@[j] == (spec_hex_char_val(t[2 * j]) * 16
                        + spec_hex_char_val(t[2 * j + 1])) as u8,
            decreases 32 - i,
        {
            let hi = hex_char_val(s.get_char(start + 2 * i));
            let lo = hex_char_val(s.get_char(start + 2 * i + 1));
            if hi >= 16 || lo >= 16 {
                proof {
                    assert(t[2 * i] == s@[start + 2 * i]);
                    assert(t[2 * i + 1] == s@[start + 2 * i + 1]);
                }
                return None;
            }
            proof {
                assert(t[2 * i] == s@[start + 2 * i]);
                assert(t[2 * i + 1] == s@[start + 2 * i + 1]);
            }
            bytes.push(hi * 16 + lo);
            i = i + 1;
        }
        let id = AccountId { bytes };
        proof {
            assert forall|j: int| 0 <= j < t.len() implies spec_hex_char_val(
                #[trigger] t[j],
            ) < 16 by {
                let k = j / 2;
                assert(j == 2 * k || j == 2 * k + 1);
            }
            assert(id@ =~= spec_hex_bytes(t));
        }
        Some(id)
    }

    /// Compares two ids by their bytes.
    pub fn eq_id(&self, other: &AccountId) -> (r: bool)
        ensures
            r == (self@ == other@),
    {
        let r = self.bytes == other.bytes;
        proof {
            if r {
                assert(self.bytes@ =~= other.bytes@);
            } else {
                if self.bytes@ == other.bytes@ {
                    assert(forall|i: int|
                        0 <= i < self.bytes@.len() ==> self.bytes@[i] == other.bytes@[i]);
                    assert(false);
                }
            }
        }
        r
    }
}

/// Reading back the hex rendering of an id yields the same id.
pub proof fn lemma_account_id_hex_round_trip(id: AccountId)
    requires
        id.wf(),
    ensures
        spec_is_account_id_hex(spec_strip_hex_prefix(spec_hex_of(id@))),
        spec_hex_bytes(spec_strip_hex_prefix(spec_hex_of(id@))) == id@,
{
    lemma_hex_round_trip(id@);
    lemma_hex_of_len(id@);
    let h = spec_hex_of(id@);
    lemma_hex_of_index(id@, 0);
    assert(spec_hex_char_val(h[0]) < 16);
    assert(h[1] != 'x' && h[1] != 'X') by {
        lemma_hex_of_index(id@, 0);
        assert(spec_hex_char_val(h[1]) < 16);
    }
    assert(spec_strip_hex_prefix(h) =~= h);
}

} // verus!
