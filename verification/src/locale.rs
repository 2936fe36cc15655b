//! The locale settings handed to localed, and the region read back from it.
use vstd::prelude::*;

verus! {

/// The locale categories that a chosen region is applied to, in order.
pub open spec fn locale_categories() -> Seq<Seq<char>> {
    seq!["LANG"@, "LC_TIME"@, "LC_NUMERIC"@, "LC_MONETARY"@, "LC_MEASUREMENT"@, "LC_PAPER"@]
}

/// The assignment `KEY=region` for each locale category, in order.
pub open spec fn locale_assignments_spec(region: Seq<char>) -> Seq<Seq<char>> {
    locale_categories().map_values(|k: Seq<char>| k + "="@ + region)
}

/// The prefix of the assignment that carries the language.
pub open spec fn lang_prefix() -> Seq<char> {
    "LANG="@
}

/// `s` assigns the language.
pub open spec fn has_lang_prefix(s: Seq<char>) -> bool {
    s.len() >= lang_prefix().len() && s.take(lang_prefix().len() as int) == lang_prefix()
}

/// The region used when no locale assigns the language.
pub open spec fn fallback_region() -> Seq<char> {
    "C.UTF-8"@
}

/// The region of a list of locale assignments: what follows `LANG=` in the
/// first assignment that starts with it, else the fallback region.
pub open spec fn region_of(locales: Seq<Seq<char>>) -> Seq<char>
    decreases locales.len(),
{
    if locales.len() == 0 {
        fallback_region()
    } else if has_lang_prefix(locales[0]) {
        locales[0].skip(lang_prefix().len() as int)
    } else {
        region_of(locales.drop_first())
    }
}

/// `KEY=region`.
fn assignment(key: &str, region: &str) -> (r: String)
    ensures
        r@ == key@ + "="@ + region@,
{
    let mut s = String::from_str(key);
    s.append("=");
    s.append(region);
    s
}

/// The assignments `KEY=region` that set every locale category to `region`:
/// `LANG`, `LC_TIME`, `LC_NUMERIC`, `LC_MONETARY`, `LC_MEASUREMENT`, `LC_PAPER`.
pub fn locale_assignments(region: &str) -> (r: Vec<String>)
    ensures
        r@.len() == locale_categories().len(),
        forall|i: int|
            0 <= i < r@.len() ==> #[trigger] r@[i]@ == locale_assignments_spec(region@)[i],
{
    let mut r: Vec<String> = Vec::new();
    r.push(assignment("LANG", region));
    r.push(assignment("LC_TIME", region));
    r.push(assignment("LC_NUMERIC", region));
    r.push(assignment("LC_MONETARY", region));
    r.push(assignment("LC_MEASUREMENT", region));
    r.push(assignment("LC_PAPER", region));
    r
}

/// Whether `s` starts with `LANG=`.
fn starts_with_lang(s: &str) -> (r: bool)
    ensures
        r == has_lang_prefix(s@),
{
    proof {
        reveal_strlit("LANG=");
    }
    let n = s.unicode_len();
    if n < 5 {
        return false;
    }
    let r = s.get_char(0) == 'L' && s.get_char(1) == 'A' && s.get_char(2) == 'N' && s.get_char(3)
        == 'G' && s.get_char(4) == '=';
    proof {
        if r {
            assert(s@.take(5) =~= lang_prefix());
        } else {
            assert(s@.take(5)[0] == s@[0]);
            assert(s@.take(5)[1] == s@[1]);
            assert(s@.take(5)[2] == s@[2]);
            assert(s@.take(5)[3] == s@[3]);
            assert(s@.take(5)[4] == s@[4]);
        }
    }
    r
}

/// The region that the locale assignments set: what follows `LANG=` in the
/// first of them that starts with it, else `C.UTF-8`.
pub fn region_from_locales(locales: &Vec<String>) -> (r: String)
    ensures
        r@ == region_of(locales@.map_values(|l: String| l@)),
{
    let ghost views = locales@.map_values(|l: String| l@);
    let mut i: usize = 0;
    assert(views.skip(0) =~= views);
    while i < locales.len()
        invariant
            i <= locales@.len(),
            views == locales@.map_values(|l: String| l@),
            region_of(views) == region_of(views.skip(i as int)),
        decreases locales@.len() - i,
    {
        let l: &str = locales[i].as_str();
        proof {
            assert(views.skip(i as int).drop_first() =~= views.skip(i + 1));
            assert(views.skip(i as int)[0] == l@);
        }
        if starts_with_lang(l) {
            proof {
                reveal_strlit("LANG=");
            }
            let n = l.unicode_len();
            return String::from_str(l.substring_char(5, n));
        }
        i = i + 1;
    }
    proof {
        assert(views.skip(i as int).len() == 0);
    }
    String::from_str("C.UTF-8")
}

/// Reading the region back from the assignments that set it gives the region.
pub proof fn lemma_region_round_trip(region: Seq<char>)
    ensures
        region_of(locale_assignments_spec(region)) == region,
{
    reveal_strlit("LANG");
    reveal_strlit("=");
    reveal_strlit("LANG=");
    let a = locale_assignments_spec(region);
    let first = a[0];
    assert(first == "LANG"@ + "="@ + region);
    assert(first.take(5) =~= lang_prefix());
    assert(first.skip(5) =~= region);
}

/// With no assignment of the language the region is `C.UTF-8`.
pub proof fn lemma_region_fallback(locales: Seq<Seq<char>>)
    requires
        forall|i: int| 0 <= i < locales.len() ==> !has_lang_prefix(#[trigger] locales[i]),
    ensures
        region_of(locales) == fallback_region(),
    decreases locales.len(),
{
    if locales.len() > 0 {
        assert forall|i: int| 0 <= i < locales.drop_first().len() implies !has_lang_prefix(
            #[trigger] locales.drop_first()[i],
        ) by {
            assert(locales.drop_first()[i] == locales[i + 1]);
        }
        lemma_region_fallback(locales.drop_first());
    }
}

} // verus!

verus! {

/// Every assignment sets its category to the chosen region: the categories
/// are `LANG`, `LC_TIME`, `LC_NUMERIC`, `LC_MONETARY`, `LC_MEASUREMENT` and
/// `LC_PAPER`, in order, and the `i`-th assignment is the `i`-th category,
/// `=`, then the region; so every assignment ends with the region.
pub proof fn lemma_assignments_set_region(region: Seq<char>)
    ensures
        locale_assignments_spec(region).len() == 6,
        locale_assignments_spec(region)[0] == "LANG"@ + "="@ + region,
        locale_assignments_spec(region)[1] == "LC_TIME"@ + "="@ + region,
        locale_assignments_spec(region)[2] == "LC_NUMERIC"@ + "="@ + region,
        locale_assignments_spec(region)[3] == "LC_MONETARY"@ + "="@ + region,
        locale_assignments_spec(region)[4] == "LC_MEASUREMENT"@ + "="@ + region,
        locale_assignments_spec(region)[5] == "LC_PAPER"@ + "="@ + region,
        forall|i: int|
            0 <= i < 6 ==> {
                let a = #[trigger] locale_assignments_spec(region)[i];
                &&& a.len() >= region.len()
                &&& a.skip(a.len() - region.len()) == region
            },
{
    assert forall|i: int|
        0 <= i < 6 implies {
        let a = #[trigger] locale_assignments_spec(region)[i];
        &&& a.len() >= region.len()
        &&& a.skip(a.len() - region.len()) == region
    } by {
        let k = locale_categories()[i];
        let a = locale_assignments_spec(region)[i];
        assert(a == k + "="@ + region);
        assert(a.skip(a.len() - region.len()) =~= region);
    }
}

} // verus!
