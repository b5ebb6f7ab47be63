//! Small helpers on strings.

use vstd::prelude::*;
use vstd::string::StringExecFns;

verus! {

/// Whether two strings hold the same characters.
pub fn same_text(a: &str, b: &str) -> (same: bool)
    ensures
        same == (a@ == b@),
{
    let left = a.to_owned();
    let right = b.to_owned();
    left == right
}

/// The names joined as a list: each between backquotes, separated by a comma
/// and a space.
pub open spec fn quoted_list(names: Seq<Seq<char>>) -> Seq<char>
    decreases names.len(),
{
    if names.len() == 0 {
        Seq::empty()
    } else if names.len() == 1 {
        "`"@ + names[0] + "`"@
    } else {
        quoted_list(names.drop_last()) + ", `"@ + names.last() + "`"@
    }
}

/// Writes the names as a list: each between backquotes, separated by a comma
/// and a space.
pub fn write_quoted_list(names: &[&'static str]) -> (list: String)
    ensures
        list@ == quoted_list(names@.map_values(|name: &'static str| name@)),
{
    let ghost views = names@.map_values(|name: &'static str| name@);
    let mut list = String::new();
    let mut i: usize = 0;
    while i < names.len()
        invariant
            i <= names.len(),
            views == names@.map_values(|name: &'static str| name@),
            list@ == quoted_list(views.take(i as int)),
        decreases names.len() - i,
    {
        if i == 0 {
            list.append("`");
        } else {
            list.append(", `");
        }
        list.append(names[i]);
        list.append("`");
        proof {
            let before = views.take(i as int);
            let after = views.take(i + 1);
            assert(after.drop_last() == before);
            assert(after.last() == names[i as int]@);
        }
        i += 1;
    }
    proof {
        assert(views.take(i as int) == views);
    }
    list
}

} // verus!
