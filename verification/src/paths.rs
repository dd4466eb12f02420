use vstd::prelude::*;

verus! {

/// `base` joined with `relative` as a Unix path: an absolute `relative`
/// (one starting with `/`) replaces `base`; otherwise `relative` is appended
/// after a `/`, which is left out when `base` is empty or already ends
/// with one.
pub open spec fn joined(base: Seq<char>, relative: Seq<char>) -> Seq<char> {
    if relative.len() > 0 && relative[0] == '/' {
        relative
    } else if base.len() == 0 || base.last() == '/' {
        base + relative
    } else {
        base + seq!['/'] + relative
    }
}

/// A relative path joined under a base stays under it: the base, then a
/// `/` unless the base is empty or already ends with one, then the
/// relative path.
pub proof fn lemma_relative_path_stays_under_base(base: Seq<char>, relative: Seq<char>)
    requires
        !(relative.len() > 0 && relative[0] == '/'),
    ensures
        base.is_prefix_of(joined(base, relative)),
        relative.is_suffix_of(joined(base, relative)),
        joined(base, relative).len() == base.len() + relative.len() + (if base.len() == 0
            || base.last() == '/' {
            0int
        } else {
            1int
        }),
{
    let j = joined(base, relative);
    assert(base.is_prefix_of(j)) by {
        assert(forall|i: int| 0 <= i < base.len() ==> j[i] == base[i]);
    }
    assert(relative.is_suffix_of(j)) by {
        assert(forall|i: int|
            0 <= i < relative.len() ==> j[j.len() - relative.len() + i] == relative[i]);
    }
}

/// Joins two Unix paths, as `Path::new(base).join(relative)` does.
pub fn join_path(base: &str, relative: &str) -> (r: String)
    ensures
        r@ == joined(base@, relative@),
{
    if !relative.is_empty() && relative.get_char(0) == '/' {
        return relative.to_string();
    }
    let mut r = base.to_string();
    let n = base.unicode_len();
    if n > 0 && base.get_char(n - 1) != '/' {
        r.append("/");
        proof {
            reveal_strlit("/");
        }
    }
    r.append(relative);
    r
}

/// Joining a relative path under a non-empty base that does not end in
/// `/` keeps the base, puts exactly one `/` after it, and then the relative
/// path; under an empty base, or one that already ends in `/`, nothing is
/// put between them; an absolute path replaces the base.
pub proof fn lemma_join_puts_one_slash_between(base: Seq<char>, relative: Seq<char>)
    ensures
        relative.len() > 0 && relative[0] == '/' ==> joined(base, relative) == relative,
        !(relative.len() > 0 && relative[0] == '/') && base.len() > 0 && base.last() != '/' ==> {
            let j = joined(base, relative);
            &&& j.len() == base.len() + 1 + relative.len()
            &&& j.subrange(0, base.len() as int) == base
            &&& j[base.len() as int] == '/'
            &&& j.subrange(base.len() as int + 1, j.len() as int) == relative
        },
        !(relative.len() > 0 && relative[0] == '/') && (base.len() == 0 || base.last() == '/')
            ==> {
            let j = joined(base, relative);
            &&& j.len() == base.len() + relative.len()
            &&& j.subrange(0, base.len() as int) == base
            &&& j.subrange(base.len() as int, j.len() as int) == relative
        },
{
    let j = joined(base, relative);
    if !(relative.len() > 0 && relative[0] == '/') {
        if base.len() > 0 && base.last() != '/' {
            assert(j.subrange(0, base.len() as int) =~= base);
            assert(j.subrange(base.len() as int + 1, j.len() as int) =~= relative);
        } else {
            assert(j.subrange(0, base.len() as int) =~= base);
            assert(j.subrange(base.len() as int, j.len() as int) =~= relative);
        }
    }
}

} // verus!
