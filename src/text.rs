use vstd::prelude::*;
use vstd::string::*;

use crate::error::{AppError, AppResult};

verus! {

/// What `str::trim` leaves of a text: the text without its leading and trailing
/// Unicode white space.
pub uninterp spec fn trim_of(s: Seq<char>) -> Seq<char>;

/// Relies on `str::trim`: the result is the argument without leading and
/// trailing white space, a function of the characters alone, and a slice of
/// the argument.
#[verifier::external_body]
fn trim(s: &str) -> (r: &str)
    ensures
        r@ == trim_of(s@),
        r@.len() <= s@.len(),
        exists|i: int| #![trigger s@.subrange(i, i + r@.len())] 0 <= i <= s@.len() - r@.len() && r@ == s@.subrange(i, i + r@.len()),
{
    s.trim()
}

/// A required text field is acceptable when something is left after trimming.
pub open spec fn text_ok(s: Seq<char>) -> bool {
    trim_of(s).len() > 0
}

/// An optional text field is acceptable when absent or acceptable.
pub open spec fn optional_text_ok(v: Option<String>) -> bool {
    v is None || text_ok(v->0@)
}

/// The text a field holds after an update: the trimmed new value if one was
/// supplied, else the current one.
pub open spec fn patched_text(v: Option<String>, current: Seq<char>) -> Seq<char> {
    match v {
        Some(s) => trim_of(s@),
        None => current,
    }
}

/// Accepts an already trimmed field value unless it is empty.
pub fn require_present(trimmed: &str, field: &str) -> (r: AppResult<String>)
    ensures
        trimmed@.len() == 0 <==> r is Err,
        r is Err ==> r->Err_0 is Validation,
        r is Ok ==> r->Ok_0@ == trimmed@,
{
    if trimmed.unicode_len() == 0 {
        let message = String::from_str(field).concat(" cannot be empty");
        return Err(AppError::Validation { message });
    }
    Ok(String::from_str(trimmed))
}

/// Normalizes a required text field: trims it and rejects what is left empty.
pub fn normalize_field(value: &str, field: &str) -> (r: AppResult<String>)
    ensures
        text_ok(value@) <==> r is Ok,
        r is Err ==> r->Err_0 is Validation,
        r is Ok ==> r->Ok_0@ == trim_of(value@),
{
    require_present(trim(value), field)
}

/// Normalizes an optional text field: absent stays absent.
pub fn normalize_optional(value: &Option<String>, field: &str) -> (r: AppResult<Option<String>>)
    ensures
        value is None ==> r == Ok::<Option<String>, AppError>(None),
        value is Some ==> (text_ok(value->0@) <==> r is Ok),
        r is Err ==> r->Err_0 is Validation,
        value is Some && r is Ok ==> r->Ok_0 is Some && r->Ok_0->0@ == trim_of(value->0@),
{
    match value {
        None => Ok(None),
        Some(v) => {
            let n = normalize_field(v.as_str(), field)?;
            Ok(Some(n))
        },
    }
}

/// Ordinal order of texts: character by character by code point, a proper
/// prefix first.
pub open spec fn text_lt(a: Seq<char>, b: Seq<char>) -> bool
    decreases a.len(),
{
    if a.len() == 0 {
        b.len() > 0
    } else if b.len() == 0 {
        false
    } else if a[0] != b[0] {
        (a[0] as int) < (b[0] as int)
    } else {
        text_lt(a.drop_first(), b.drop_first())
    }
}

pub proof fn lemma_text_lt_irreflexive(a: Seq<char>)
    ensures
        !text_lt(a, a),
    decreases a.len(),
{
    if a.len() > 0 {
        lemma_text_lt_irreflexive(a.drop_first());
    }
}

pub proof fn lemma_text_lt_transitive(a: Seq<char>, b: Seq<char>, c: Seq<char>)
    requires
        text_lt(a, b),
        text_lt(b, c),
    ensures
        text_lt(a, c),
    decreases a.len(),
{
    if a.len() > 0 && b.len() > 0 && c.len() > 0 && a[0] == b[0] && b[0] == c[0] {
        lemma_text_lt_transitive(a.drop_first(), b.drop_first(), c.drop_first());
    }
}

pub proof fn lemma_text_lt_total(a: Seq<char>, b: Seq<char>)
    ensures
        text_lt(a, b) || text_lt(b, a) || a == b,
    decreases a.len(),
{
    if a.len() > 0 && b.len() > 0 {
        if a[0] == b[0] {
            lemma_text_lt_total(a.drop_first(), b.drop_first());
            if a.drop_first() == b.drop_first() {
                assert(a =~= seq![a[0]] + a.drop_first());
                assert(b =~= seq![b[0]] + b.drop_first());
            }
        } else {
        }
    } else if a.len() == 0 && b.len() == 0 {
        assert(a =~= b);
    }
}

/// The outcome of comparing two texts.
#[derive(Clone, Copy, Debug, PartialEq, Eq, Structural)]
pub enum TextOrder {
    Before,
    Same,
    After,
}

/// Compares two texts in ordinal order.
pub fn compare_text(a: &str, b: &str) -> (r: TextOrder)
    ensures
        (r == TextOrder::Before) == text_lt(a@, b@),
        (r == TextOrder::Same) == (a@ == b@),
        (r == TextOrder::After) == text_lt(b@, a@),
{
    proof {
        lemma_text_lt_irreflexive(a@);
        lemma_text_lt_total(a@, b@);
        assert(a@.skip(0) =~= a@);
        assert(b@.skip(0) =~= b@);
    }
    let la = a.unicode_len();
    let lb = b.unicode_len();
    let mut i: usize = 0;
    while i < la && i < lb
        invariant
            la == a@.len(),
            lb == b@.len(),
            i <= la,
            i <= lb,
            a@.subrange(0, i as int) == b@.subrange(0, i as int),
            text_lt(a@, b@) == text_lt(a@.skip(i as int), b@.skip(i as int)),
            text_lt(b@, a@) == text_lt(b@.skip(i as int), a@.skip(i as int)),
        decreases la - i,
    {
        let ca = a.get_char(i);
        let cb = b.get_char(i);
        if ca != cb {
            proof {
                assert(a@.skip(i as int)[0] == ca);
                assert(b@.skip(i as int)[0] == cb);
                if a@ == b@ {
                    assert(a@[i as int] == b@[i as int]);
                }
            }
            if (ca as u32) < (cb as u32) {
                return TextOrder::Before;
            } else {
                return TextOrder::After;
            }
        }
        proof {
            assert(a@.skip(i as int).drop_first() =~= a@.skip(i + 1));
            assert(b@.skip(i as int).drop_first() =~= b@.skip(i + 1));
            assert(a@.subrange(0, i + 1) =~= a@.subrange(0, i as int).push(ca));
            assert(b@.subrange(0, i + 1) =~= b@.subrange(0, i as int).push(cb));
        }
        i = i + 1;
    }
    proof {
        assert(a@.skip(i as int).len() == la - i);
        assert(b@.skip(i as int).len() == lb - i);
        if la == lb {
            assert(a@ =~= a@.subrange(0, i as int));
            assert(b@ =~= b@.subrange(0, i as int));
        } else if la < lb {
            assert(a@ =~= a@.subrange(0, i as int));
            assert(a@ != b@);
        } else {
            assert(b@ =~= b@.subrange(0, i as int));
            assert(a@ != b@);
        }
    }
    if la == lb {
        TextOrder::Same
    } else if la < lb {
        TextOrder::Before
    } else {
        TextOrder::After
    }
}

} // verus!
