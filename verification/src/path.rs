use vstd::prelude::*;
use crate::hashing::chars_to_string;
use crate::models::{DerivationPath, Meta, SignRequest};
use crate::numeric::{dec_str, hex_digit, hex_digit_char, u64_to_chars};
use vstd::string::StringExecFns;

verus! {

/// The canonical escaping of one character inside a JSON string: quote and
/// backslash get a backslash, the five short control escapes are used where
/// they exist, other control characters become `\u00` and two lowercase hex
/// digits, and everything else stands for itself.
pub open spec fn escape_char(c: char) -> Seq<char> {
    if c == '"' {
        seq!['\\', '"']
    } else if c == '\\' {
        seq!['\\', '\\']
    } else if c == '\u{8}' {
        seq!['\\', 'b']
    } else if c == '\t' {
        seq!['\\', 't']
    } else if c == '\n' {
        seq!['\\', 'n']
    } else if c == '\u{c}' {
        seq!['\\', 'f']
    } else if c == '\r' {
        seq!['\\', 'r']
    } else if (c as u32) < 32 {
        seq!['\\', 'u', '0', '0', hex_digit((c as u32) as int / 16), hex_digit((c as u32) as int % 16)]
    } else {
        seq![c]
    }
}

/// The canonical escaping of a whole character sequence.
pub open spec fn json_escaped(s: Seq<char>) -> Seq<char>
    decreases s.len(),
{
    if s.len() == 0 {
        Seq::empty()
    } else {
        json_escaped(s.drop_last()) + escape_char(s.last())
    }
}

/// Escaping a one-character extension extends the escaped text by that
/// character's escape.
pub proof fn lemma_json_escaped_step(s: Seq<char>, i: int)
    requires
        0 <= i < s.len(),
    ensures
        json_escaped(s.take(i + 1)) == json_escaped(s.take(i)) + escape_char(s[i]),
{
    assert(s.take(i + 1).drop_last() =~= s.take(i));
    assert(s.take(i + 1).last() == s[i]);
}

/// Appends the canonical escape of `c`.
pub fn push_escaped(out: &mut Vec<char>, c: char)
    ensures
        final(out)@ == old(out)@ + escape_char(c),
{
    if c == '"' {
        out.push('\\');
        out.push('"');
    } else if c == '\\' {
        out.push('\\');
        out.push('\\');
    } else if c == '\u{8}' {
        out.push('\\');
        out.push('b');
    } else if c == '\t' {
        out.push('\\');
        out.push('t');
    } else if c == '\n' {
        out.push('\\');
        out.push('n');
    } else if c == '\u{c}' {
        out.push('\\');
        out.push('f');
    } else if c == '\r' {
        out.push('\\');
        out.push('r');
    } else {
        let v = c as u32;
        if v < 32 {
            out.push('\\');
            out.push('u');
            out.push('0');
            out.push('0');
            out.push(hex_digit_char((v / 16) as u64));
            out.push(hex_digit_char((v % 16) as u64));
        } else {
            out.push(c);
        }
    }
    proof {
        assert(out@ =~= old(out)@ + escape_char(c));
    }
}

/// The canonical escaping of a string, as characters.
pub fn escape_str(s: &str) -> (v: Vec<char>)
    ensures
        v@ == json_escaped(s@),
{
    let mut out: Vec<char> = Vec::new();
    let n = s.unicode_len();
    for i in 0..n
        invariant
            n == s@.len(),
            out@ =~= json_escaped(s@.take(i as int)),
    {
        let c = s.get_char(i);
        proof {
            lemma_json_escaped_step(s@, i as int);
        }
        push_escaped(&mut out, c);
    }
    proof {
        assert(s@.take(n as int) =~= s@);
    }
    out
}

/// The canonical serialization of a derivation path: fixed key order
/// (`chain` before `meta`, `email` before `user_id`), canonical decimal for
/// the chain, canonical string escaping, no insignificant whitespace.
/// Structurally equal inputs always serialize to byte-identical text.
pub open spec fn canonical_path_chars(chain: u64, email: Seq<char>, user_id: Seq<char>) -> Seq<
    char,
> {
    "{\"chain\":"@ + dec_str(chain as nat) + ",\"meta\":{\"email\":\""@ + json_escaped(email)
        + "\",\"user_id\":\""@ + json_escaped(user_id) + "\"}}"@
}

impl DerivationPath {
    /// Assembles a derivation path; the field order of assembly has no
    /// bearing on the canonical serialization.
    pub fn build(chain: u64, meta: Meta) -> (r: DerivationPath)
        ensures
            r.chain == chain,
            r.meta.email@ == meta.email@,
            r.meta.user_id@ == meta.user_id@,
    {
        DerivationPath { chain, meta }
    }

    /// The canonical, byte-stable serialization of this path. It never
    /// fails: every chain value and every string is representable.
    pub fn canonical(&self) -> (r: String)
        ensures
            r@ == canonical_path_chars(self.chain, self.meta.email@, self.meta.user_id@),
    {
        let mut out = String::new();
        out.append("{\"chain\":");
        let chain_chars = u64_to_chars(self.chain);
        let chain_str = chars_to_string(&chain_chars);
        out.append(chain_str.as_str());
        out.append(",\"meta\":{\"email\":\"");
        let email_chars = escape_str(self.meta.email.as_str());
        let email_str = chars_to_string(&email_chars);
        out.append(email_str.as_str());
        out.append("\",\"user_id\":\"");
        let user_chars = escape_str(self.meta.user_id.as_str());
        let user_str = chars_to_string(&user_chars);
        out.append(user_str.as_str());
        out.append("\"}}");
        proof {
            assert(out@ =~= canonical_path_chars(
                self.chain,
                self.meta.email@,
                self.meta.user_id@,
            ));
        }
        out
    }
}

/// The decimal renderings of a byte sequence, joined by commas.
pub open spec fn dec_list(b: Seq<u8>) -> Seq<char>
    decreases b.len(),
{
    if b.len() == 0 {
        Seq::empty()
    } else if b.len() == 1 {
        dec_str(b[0] as nat)
    } else {
        dec_list(b.drop_last()) + ","@ + dec_str(b.last() as nat)
    }
}

/// The serialized call arguments handed to the external signer: an object
/// holding the request's payload bytes, its derivation path (escaped as a
/// JSON string), and its key version, in that fixed order.
pub open spec fn sign_args_chars(payload: Seq<u8>, path: Seq<char>, key_version: u32) -> Seq<
    char,
> {
    "{\"request\":{\"payload\":["@ + dec_list(payload) + "],\"path\":\""@ + json_escaped(path)
        + "\",\"key_version\":"@ + dec_str(key_version as nat) + "}}"@
}

/// Serializes a request for the external signer's call convention.
pub fn build_sign_args(req: &SignRequest) -> (r: String)
    ensures
        r@ == sign_args_chars(req.payload@, req.path@, req.key_version),
{
    let mut out = String::new();
    out.append("{\"request\":{\"payload\":[");
    let n = req.payload.len();
    let mut nums: Vec<char> = Vec::new();
    for i in 0..n
        invariant
            n == req.payload@.len(),
            nums@ =~= dec_list(req.payload@.take(i as int)),
    {
        proof {
            assert(req.payload@.take(i + 1).drop_last() =~= req.payload@.take(i as int));
            assert(req.payload@.take(i + 1).last() == req.payload@[i as int]);
        }
        if i > 0 {
            let mut comma: Vec<char> = Vec::new();
            comma.push(',');
            proof {
                assert(comma@ =~= ","@) by {
                    reveal_strlit(",");
                }
            }
            nums.append(&mut comma);
        }
        let mut digits = u64_to_chars(req.payload[i] as u64);
        nums.append(&mut digits);
        proof {
            assert(nums@ =~= dec_list(req.payload@.take(i + 1)));
        }
    }
    proof {
        assert(req.payload@.take(n as int) =~= req.payload@);
    }
    let nums_str = chars_to_string(&nums);
    out.append(nums_str.as_str());
    out.append("],\"path\":\"");
    let path_chars = escape_str(req.path.as_str());
    let path_str = chars_to_string(&path_chars);
    out.append(path_str.as_str());
    out.append("\",\"key_version\":");
    let kv_chars = u64_to_chars(req.key_version as u64);
    let kv_str = chars_to_string(&kv_chars);
    out.append(kv_str.as_str());
    out.append("}}");
    proof {
        assert(out@ =~= sign_args_chars(req.payload@, req.path@, req.key_version));
    }
    out
}

} // verus!
