use vstd::prelude::*;

use crate::error::ParseError;
use crate::text::{lower_seq, lower_str, trim_str, trimmed};

verus! {

/// An ASCII decimal digit.
pub open spec fn is_digit(c: char) -> bool {
    48 <= c as u32 && c as u32 <= 57
}

/// An ASCII letter.
pub open spec fn is_alpha(c: char) -> bool {
    (65 <= c as u32 && c as u32 <= 90) || (97 <= c as u32 && c as u32 <= 122)
}

/// An ASCII letter or digit.
pub open spec fn is_alnum(c: char) -> bool {
    is_alpha(c) || is_digit(c)
}

/// A character allowed in the local part of an address.
pub open spec fn is_local_char(c: char) -> bool {
    is_alnum(c) || c == '.' || c == '_' || c == '%' || c == '+' || c == '-'
}

/// A character allowed in the host labels of a domain.
pub open spec fn is_domain_char(c: char) -> bool {
    is_alnum(c) || c == '.' || c == '-'
}

/// `k` splits `d` into a non-empty run of host characters, a dot, and a
/// final label of two or more letters.
pub open spec fn is_domain_witness(d: Seq<char>, k: int) -> bool {
    &&& 1 <= k
    &&& k + 3 <= d.len()
    &&& d[k] == '.'
    &&& forall|i: int| 0 <= i < k ==> is_domain_char(#[trigger] d[i])
    &&& forall|i: int| k < i < d.len() ==> is_alpha(#[trigger] d[i])
}

/// A domain of the shape `host.tld` with a 2+ letter final label.
pub open spec fn valid_domain(d: Seq<char>) -> bool {
    exists|k: int| is_domain_witness(d, k)
}

/// `a` is the position of the separating `@`: local characters before it,
/// a valid domain after it.
pub open spec fn is_email_witness(s: Seq<char>, a: int) -> bool {
    &&& 1 <= a < s.len()
    &&& s[a] == '@'
    &&& forall|i: int| 0 <= i < a ==> is_local_char(#[trigger] s[i])
    &&& valid_domain(s.subrange(a + 1, s.len() as int))
}

/// The full address grammar: a letter or digit, then local characters, an
/// `@`, and a valid domain.
pub open spec fn valid_email(s: Seq<char>) -> bool {
    &&& s.len() > 0
    &&& is_alnum(s[0])
    &&& exists|a: int| is_email_witness(s, a)
}

/// The weaker shape checked before the full grammar: something before an
/// `@` that is followed by a valid domain.
pub open spec fn has_domain_shape(s: Seq<char>) -> bool {
    exists|a: int|
        1 <= a < s.len() && s[a] == '@' && valid_domain(s.subrange(a + 1, s.len() as int))
}

fn is_alpha_exec(c: char) -> (r: bool)
    ensures
        r == is_alpha(c),
{
    let u = c as u32;
    (65 <= u && u <= 90) || (97 <= u && u <= 122)
}

fn is_alnum_exec(c: char) -> (r: bool)
    ensures
        r == is_alnum(c),
{
    let u = c as u32;
    is_alpha_exec(c) || (48 <= u && u <= 57)
}

fn is_local_char_exec(c: char) -> (r: bool)
    ensures
        r == is_local_char(c),
{
    is_alnum_exec(c) || c == '.' || c == '_' || c == '%' || c == '+' || c == '-'
}

fn is_domain_char_exec(c: char) -> (r: bool)
    ensures
        r == is_domain_char(c),
{
    is_alnum_exec(c) || c == '.' || c == '-'
}

proof fn lemma_valid_domain_no_at(d: Seq<char>)
    requires
        valid_domain(d),
    ensures
        forall|p: int| 0 <= p < d.len() ==> d[p] != '@',
{
    let k = choose|k: int| is_domain_witness(d, k);
    assert forall|p: int| 0 <= p < d.len() implies d[p] != '@' by {
        if p < k {
            assert(is_domain_char(d[p]));
        } else if p > k {
            assert(is_alpha(d[p]));
        }
    }
}

/// Checks whether the characters of `s` from `start` on form a valid
/// domain: host characters, a dot, and a 2+ letter final label.
fn check_domain(s: &str, start: usize) -> (r: bool)
    requires
        start <= s@.len(),
    ensures
        r == valid_domain(s@.subrange(start as int, s@.len() as int)),
{
    let ghost d = s@.subrange(start as int, s@.len() as int);
    let n = s.unicode_len();
    let mut dot: usize = 0;
    let mut has_dot: bool = false;
    let mut i: usize = start;
    while i < n
        invariant
            start <= i <= n,
            n == s@.len(),
            has_dot ==> start <= dot < i && s@[dot as int] == '.',
            has_dot ==> forall|j: int| dot < j < i ==> s@[j] != '.',
            !has_dot ==> forall|j: int| start <= j < i ==> s@[j] != '.',
        decreases n - i,
    {
        if s.get_char(i) == '.' {
            dot = i;
            has_dot = true;
        }
        i = i + 1;
    }
    if !has_dot {
        proof {
            if valid_domain(d) {
                let k = choose|k: int| is_domain_witness(d, k);
                assert(s@[start + k] == '.');
            }
        }
        return false;
    }
    proof {
        // any witness must point at the last dot
        if valid_domain(d) {
            let k = choose|k: int| is_domain_witness(d, k);
            assert(d[k] == '.');
            assert(s@[start + k] == '.');
            assert(start + k <= dot);
            if start + k < dot {
                assert(d[dot - start] == '.');
                assert(is_alpha(d[dot - start]));
                assert(false);
            }
            assert(start + k == dot);
        }
    }
    if dot < start + 1 {
        proof {
            if valid_domain(d) {
                let k = choose|k: int| is_domain_witness(d, k);
                assert(start + k == dot);
            }
        }
        return false;
    }
    if n - (dot + 1) < 2 {
        proof {
            if valid_domain(d) {
                let k = choose|k: int| is_domain_witness(d, k);
                assert(start + k == dot);
                assert(k + 3 <= d.len());
            }
        }
        return false;
    }
    let mut p: usize = dot + 1;
    let mut tld_ok: bool = true;
    while p < n
        invariant
            dot + 1 <= p <= n,
            n == s@.len(),
            tld_ok <==> (forall|j: int| dot < j < p ==> is_alpha(#[trigger] s@[j])),
        decreases n - p,
    {
        if !is_alpha_exec(s.get_char(p)) {
            tld_ok = false;
        }
        p = p + 1;
    }
    if !tld_ok {
        proof {
            if valid_domain(d) {
                let k = choose|k: int| is_domain_witness(d, k);
                assert(start + k == dot);
                let j = choose|j: int| dot < j < n && !is_alpha(#[trigger] s@[j]);
                assert(is_alpha(d[j - start]));
                assert(false);
            }
        }
        return false;
    }
    let mut q: usize = start;
    let mut host_ok: bool = true;
    while q < dot
        invariant
            start <= q <= dot,
            dot < n,
            n == s@.len(),
            host_ok <==> (forall|j: int| start <= j < q ==> is_domain_char(#[trigger] s@[j])),
        decreases dot - q,
    {
        if !is_domain_char_exec(s.get_char(q)) {
            host_ok = false;
        }
        q = q + 1;
    }
    if !host_ok {
        proof {
            if valid_domain(d) {
                let k = choose|k: int| is_domain_witness(d, k);
                assert(start + k == dot);
                let j = choose|j: int| start <= j < dot && !is_domain_char(#[trigger] s@[j]);
                assert(is_domain_char(d[j - start]));
                assert(false);
            }
        }
        return false;
    }
    proof {
        let k = dot - start;
        assert forall|idx: int| 0 <= idx < k implies is_domain_char(#[trigger] d[idx]) by {
            assert(d[idx] == s@[start + idx]);
        }
        assert forall|idx: int| k < idx < d.len() implies is_alpha(#[trigger] d[idx]) by {
            assert(d[idx] == s@[start + idx]);
        }
        assert(is_domain_witness(d, k));
    }
    true
}

/// A validated, normalized email address: the stored string is trimmed and
/// lower-cased by `parse`, and `parse_unsafe` stores its input unchanged.
#[derive(Debug)]
pub struct Email(String);

impl Clone for Email {
    fn clone(&self) -> (r: Self)
        ensures
            r@ == self@,
    {
        Email(self.0.clone())
    }
}

impl View for Email {
    type V = Seq<char>;

    closed spec fn view(&self) -> Seq<char> {
        self.0@
    }
}

impl PartialEq for Email {
    fn eq(&self, other: &Email) -> (r: bool) {
        self.0 == other.0
    }
}

impl vstd::std_specs::cmp::PartialEqSpecImpl for Email {
    open spec fn obeys_eq_spec() -> bool {
        true
    }

    open spec fn eq_spec(&self, other: &Email) -> bool {
        self@ == other@
    }
}

/// Names the digest that `blake3::hash` computes: it depends on the input
/// bytes alone.
pub uninterp spec fn blake3_hex_of(bytes: Seq<u8>) -> Seq<char>;

/// Relies on `blake3::hash` and the `Display` form of `blake3::Hash`: the
/// digest is a function of the input bytes alone, shown as 64 lowercase
/// hexadecimal characters.
#[verifier::external_body]
fn blake3_hex(bytes: &[u8]) -> (r: String)
    ensures
        r@ == blake3_hex_of(bytes@),
        r@.len() == 64,
{
    blake3::hash(bytes).to_string()
}

impl Email {
    /// Validates and normalizes an address. The input is trimmed; it must
    /// start with a letter or digit and match the full address grammar.
    /// Each stage of validation fails with its own reason, and on success
    /// the stored value is the trimmed input, lower-cased.
    pub fn parse(email: &str) -> (r: Result<Email, ParseError>)
        ensures
            r is Ok <==> valid_email(trimmed(email@)),
            r matches Ok(e) ==> e@ == lower_seq(trimmed(email@)),
            trimmed(email@).len() == 0 ==> (r matches Err(pe) && pe.0@
                == "an email cannot be empty"@),
            trimmed(email@).len() > 0 && !is_alnum(trimmed(email@)[0]) ==> (r matches Err(pe)
                && pe.0@ == "an email can only start with a letter or a number"@),
            trimmed(email@).len() > 0 && is_alnum(trimmed(email@)[0]) && !has_domain_shape(
                trimmed(email@),
            ) ==> (r matches Err(pe) && pe.0@ == "the email does not contain a valid [domain] part"@),
            trimmed(email@).len() > 0 && is_alnum(trimmed(email@)[0]) && has_domain_shape(
                trimmed(email@),
            ) && !valid_email(trimmed(email@)) ==> (r matches Err(pe) && pe.0@ == trimmed(email@)
                + " is not a valid email"@),
    {
        let t = trim_str(email);
        let n = t.unicode_len();
        if n == 0 {
            return Err(ParseError("an email cannot be empty".to_owned()));
        }
        let c0 = t.get_char(0);
        if !is_alnum_exec(c0) {
            return Err(ParseError("an email can only start with a letter or a number".to_owned()));
        }
        let mut at_pos: usize = 0;
        let mut has_at: bool = false;
        let mut i: usize = 0;
        while i < n
            invariant
                0 <= i <= n,
                n == t@.len(),
                has_at ==> at_pos < i && t@[at_pos as int] == '@',
                has_at ==> forall|j: int| at_pos < j < i ==> t@[j] != '@',
                !has_at ==> forall|j: int| 0 <= j < i ==> t@[j] != '@',
            decreases n - i,
        {
            if t.get_char(i) == '@' {
                at_pos = i;
                has_at = true;
            }
            i = i + 1;
        }
        let domain_ok = if has_at && at_pos >= 1 {
            check_domain(t, at_pos + 1)
        } else {
            false
        };
        proof {
            // the exec check agrees with the declarative shape
            if domain_ok {
                assert(1 <= at_pos < t@.len() && t@[at_pos as int] == '@' && valid_domain(
                    t@.subrange(at_pos + 1, t@.len() as int),
                ));
                assert(has_domain_shape(t@));
            }
            if !domain_ok && has_domain_shape(t@) {
                let a = choose|a: int|
                    1 <= a < t@.len() && t@[a] == '@' && valid_domain(
                        t@.subrange(a + 1, t@.len() as int),
                    );
                assert(has_at);
                assert(a <= at_pos);
                if a < at_pos {
                    let d = t@.subrange(a + 1, t@.len() as int);
                    lemma_valid_domain_no_at(d);
                    assert(d[at_pos - (a + 1)] == '@');
                    assert(false);
                }
                assert(false);
            }
        }
        if !domain_ok {
            proof {
                if valid_email(t@) {
                    let a = choose|a: int| is_email_witness(t@, a);
                    assert(has_domain_shape(t@));
                }
            }
            return Err(
                ParseError("the email does not contain a valid [domain] part".to_owned()),
            );
        }
        let mut k: usize = 1;
        let mut local_ok: bool = true;
        while k < at_pos
            invariant
                1 <= k <= at_pos,
                at_pos < n,
                n == t@.len(),
                local_ok <==> (forall|j: int| 1 <= j < k ==> is_local_char(#[trigger] t@[j])),
            decreases at_pos - k,
        {
            if !is_local_char_exec(t.get_char(k)) {
                local_ok = false;
            }
            k = k + 1;
        }
        if !local_ok {
            proof {
                if valid_email(t@) {
                    let a = choose|a: int| is_email_witness(t@, a);
                    assert(a <= at_pos);
                    if a < at_pos {
                        let d = t@.subrange(a + 1, t@.len() as int);
                        lemma_valid_domain_no_at(d);
                        assert(d[at_pos - (a + 1)] == '@');
                        assert(false);
                    }
                    let j = choose|j: int| 1 <= j < at_pos && !is_local_char(#[trigger] t@[j]);
                    assert(is_local_char(t@[j]));
                    assert(false);
                }
            }
            let mut msg = t.to_owned();
            msg.append(" is not a valid email");
            return Err(ParseError(msg));
        }
        proof {
            assert forall|j: int| 0 <= j < at_pos implies is_local_char(#[trigger] t@[j]) by {
                if j == 0 {
                    assert(is_alnum(t@[0]));
                }
            }
            assert(is_email_witness(t@, at_pos as int));
        }
        Ok(Email(lower_str(t)))
    }

    /// Stores the given string as an address without any validation or
    /// normalization. Only for values already known to be valid, for
    /// example ones round-tripped from a store that validated them at
    /// write time; never for caller-supplied input.
    pub fn parse_unsafe(email: String) -> (r: Email)
        ensures
            r@ == email@,
    {
        Email(email)
    }

    /// The stored, normalized address.
    pub fn as_str(&self) -> (r: &str)
        ensures
            r@ == self@,
    {
        self.0.as_str()
    }

    /// The hex form of the BLAKE3 digest of the stored address.
    pub fn hash(&self) -> (r: String)
        ensures
            r@ == blake3_hex_of(vstd::utf8::encode_utf8(self@)),
            r@.len() == 64,
    {
        blake3_hex(self.0.as_str().as_bytes())
    }
}

} // verus!
