use vstd::prelude::*;

verus! {

/// The string views of a list of strings.
pub open spec fn spec_strings(strings: Seq<String>) -> Seq<Seq<char>> {
    strings.map_values(|s: String| s@)
}

/// The view of an optional string.
pub open spec fn spec_opt_string(s: Option<String>) -> Option<Seq<char>> {
    match s {
        Some(s) => Some(s@),
        None => None,
    }
}

/// `index` is the first position of `value` in `list`, or `None` when it does not occur.
pub open spec fn spec_is_first_position(
    list: Seq<Seq<char>>,
    value: Seq<char>,
    index: Option<usize>,
) -> bool {
    match index {
        Some(i) => {
            &&& i < list.len()
            &&& list[i as int] == value
            &&& forall|j: int| 0 <= j < i ==> list[j] != value
        },
        None => forall|j: int| 0 <= j < list.len() ==> list[j] != value,
    }
}

/// The first position of `value` in `list`.
pub fn position_of(list: &Vec<String>, value: &String) -> (result: Option<usize>)
    ensures
        spec_is_first_position(spec_strings(list@), value@, result),
{
    let mut i: usize = 0;
    while i < list.len()
        invariant
            i <= list@.len(),
            forall|j: int| 0 <= j < i ==> (#[trigger] list@[j])@ != value@,
        decreases list@.len() - i,
    {
        if list[i] == *value {
            return Some(i);
        }
        i = i + 1;
    }
    None
}

/// A copy of a list of strings.
pub fn clone_strings(list: &Vec<String>) -> (result: Vec<String>)
    ensures
        spec_strings(result@) == spec_strings(list@),
{
    let mut result: Vec<String> = Vec::new();
    let mut i: usize = 0;
    while i < list.len()
        invariant
            i <= list@.len(),
            result@.len() == i,
            forall|j: int| 0 <= j < i ==> (#[trigger] result@[j])@ == list@[j]@,
        decreases list@.len() - i,
    {
        let item = list[i].clone();
        result.push(item);
        i = i + 1;
    }
    assert(spec_strings(result@) =~= spec_strings(list@));
    result
}

/// `prefix` followed by `value`.
pub fn prefixed(prefix: &str, value: &String) -> (result: String)
    ensures
        result@ == prefix@ + value@,
{
    String::from_str(prefix).concat(value.as_str())
}

} // verus!
