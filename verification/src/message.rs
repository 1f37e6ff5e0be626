use vstd::prelude::*;
use vstd::string::StrSliceExecFns;

verus! {

/// The slippage bounds and routing that one inbound transfer notification may
/// carry: all fields optional, absent on an unparsable message. Ephemeral —
/// it lives only while that notification is handled.
pub struct DepositMessage {
    pub min_shares: Option<u128>,
    pub max_shares: Option<u128>,
    pub receiver_id: Option<String>,
    pub memo: Option<String>,
}

/// The string value at `key` in the top-level object of `text`, when `text`
/// is valid JSON whose top level holds a string there; nothing otherwise.
pub uninterp spec fn json_string_field(text: Seq<char>, key: Seq<char>) -> Option<Seq<char>>;

/// Relies on serde_json — `from_str`, `Value::get` and `Value::as_str` — for
/// the string value at `key` in the top-level JSON object of `text`, if
/// there is one. The result depends on `text` and `key` alone.
#[verifier::external_body]
fn get_json_string_field(text: &str, key: &str) -> (r: Option<String>)
    ensures
        r.deep_view() == json_string_field(text@, key@),
{
    let value: serde_json::Value = match serde_json::from_str(text) {
        Ok(v) => v,
        Err(_) => return None,
    };
    let field = match value.get(key) {
        Some(f) => f,
        None => return None,
    };
    match field.as_str() {
        Some(s) => Some(s.to_string()),
        None => None,
    }
}

/// Whether `c` is a decimal digit.
pub open spec fn is_digit_char(c: char) -> bool {
    48 <= c as int <= 57
}

/// The numeric value of the digit `c`.
pub open spec fn digit_value(c: char) -> int {
    c as int - 48
}

/// Whether `s` is a plain decimal numeral: nonempty, digits only.
pub open spec fn is_dec_numeral(s: Seq<char>) -> bool {
    s.len() > 0 && forall|i: int| 0 <= i < s.len() ==> is_digit_char(s[i])
}

/// The numeric value of the digit sequence `s`, most significant first.
pub open spec fn dec_value(s: Seq<char>) -> int
    decreases s.len(),
{
    if s.len() == 0 {
        0
    } else {
        dec_value(s.drop_last()) * 10 + digit_value(s.last())
    }
}

proof fn lemma_dec_value_nonneg(s: Seq<char>)
    requires
        forall|i: int| 0 <= i < s.len() ==> is_digit_char(s[i]),
    ensures
        dec_value(s) >= 0,
    decreases s.len(),
{
    if s.len() > 0 {
        lemma_dec_value_nonneg(s.drop_last());
    }
}

/// The value of a prefix of a digit sequence never exceeds the value of the
/// whole sequence.
proof fn lemma_dec_value_prefix_le(s: Seq<char>, k: int)
    requires
        forall|i: int| 0 <= i < s.len() ==> is_digit_char(s[i]),
        0 <= k <= s.len(),
    ensures
        dec_value(s.subrange(0, k)) <= dec_value(s),
    decreases s.len() - k,
{
    if k == s.len() {
        assert(s.subrange(0, k) =~= s);
    } else {
        let p = s.subrange(0, k + 1);
        assert(p.drop_last() =~= s.subrange(0, k));
        lemma_dec_value_nonneg(s.subrange(0, k));
        lemma_dec_value_prefix_le(s, k + 1);
    }
}

/// Parses a plain decimal numeral: the numeric value when `s` is nonempty,
/// holds digits only, and fits the 128-bit range; nothing otherwise.
pub fn parse_u128(s: &str) -> (r: Option<u128>)
    ensures
        match r {
            Some(v) => is_dec_numeral(s@) && dec_value(s@) <= u128::MAX && v as int == dec_value(
                s@,
            ),
            None => !is_dec_numeral(s@) || dec_value(s@) > u128::MAX,
        },
{
    let n = s.unicode_len();
    if n == 0 {
        return None;
    }
    let mut acc: u128 = 0;
    let mut i: usize = 0;
    while i < n
        invariant
            n == s@.len(),
            0 < n,
            i <= n,
            forall|j: int| 0 <= j < i ==> is_digit_char(s@[j]),
            acc as int == dec_value(s@.subrange(0, i as int)),
        decreases n - i,
    {
        let c = s.get_char(i);
        let d = c as u32;
        if d < 48 || d > 57 {
            return None;
        }
        let ghost pre = s@.subrange(0, i as int);
        let step = match acc.checked_mul(10) {
            Some(a) => a.checked_add((d - 48) as u128),
            None => None,
        };
        acc = match step {
            Some(b) => b,
            None => {
                proof {
                    let cur = s@.subrange(0, i as int + 1);
                    assert(cur.drop_last() =~= pre);
                    assert(dec_value(cur) > u128::MAX);
                    if is_dec_numeral(s@) {
                        lemma_dec_value_prefix_le(s@, i as int + 1);
                    }
                }
                return None;
            },
        };
        proof {
            let cur = s@.subrange(0, i as int + 1);
            assert(cur.drop_last() =~= pre);
        }
        i = i + 1;
    }
    proof {
        assert(s@.subrange(0, n as int) =~= s@);
    }
    Some(acc)
}

/// The numeric reading of the string field at `key`: its decimal value when
/// present, a numeral, and within the 128-bit range; nothing otherwise.
pub open spec fn spec_field_u128(text: Seq<char>, key: Seq<char>) -> Option<u128> {
    match json_string_field(text, key) {
        Some(s) => if is_dec_numeral(s) && dec_value(s) <= u128::MAX {
            Some(dec_value(s) as u128)
        } else {
            None
        },
        None => None,
    }
}

/// Reads the deposit intent out of a notification message: each field is
/// taken where the message carries it well-formed, and absent otherwise, so
/// an unparsable message is a plain deposit without bounds.
pub fn parse_deposit_message(msg: &str) -> (r: DepositMessage)
    ensures
        r.min_shares == spec_field_u128(msg@, "min_shares"@),
        r.max_shares == spec_field_u128(msg@, "max_shares"@),
        r.receiver_id.deep_view() == json_string_field(msg@, "receiver_id"@),
        r.memo.deep_view() == json_string_field(msg@, "memo"@),
{
    let min_shares = match get_json_string_field(msg, "min_shares") {
        Some(s) => parse_u128(s.as_str()),
        None => None,
    };
    let max_shares = match get_json_string_field(msg, "max_shares") {
        Some(s) => parse_u128(s.as_str()),
        None => None,
    };
    let receiver_id = get_json_string_field(msg, "receiver_id");
    let memo = get_json_string_field(msg, "memo");
    DepositMessage { min_shares, max_shares, receiver_id, memo }
}

} // verus!
