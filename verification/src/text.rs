use vstd::prelude::*;

verus! {

/// The characters of each string of a list.
pub open spec fn views(list: Seq<String>) -> Seq<Seq<char>> {
    list.map_values(|s: String| s@)
}

/// The parts of a list, each followed by nothing and preceded, from the second on, by the
/// separator.
pub open spec fn joined(parts: Seq<Seq<char>>, separator: Seq<char>) -> Seq<char>
    decreases parts.len(),
{
    if parts.len() == 0 {
        Seq::empty()
    } else if parts.len() == 1 {
        parts[0]
    } else {
        joined(parts.drop_last(), separator) + separator + parts.last()
    }
}

/// The character that writes a digit.
pub open spec fn digit_char(d: nat) -> char {
    if d == 0 {
        '0'
    } else if d == 1 {
        '1'
    } else if d == 2 {
        '2'
    } else if d == 3 {
        '3'
    } else if d == 4 {
        '4'
    } else if d == 5 {
        '5'
    } else if d == 6 {
        '6'
    } else if d == 7 {
        '7'
    } else if d == 8 {
        '8'
    } else {
        '9'
    }
}

/// A natural number written in base ten, without leading zeros.
pub open spec fn decimal(n: nat) -> Seq<char>
    decreases n,
{
    if n < 10 {
        seq![digit_char(n)]
    } else {
        decimal(n / 10).push(digit_char(n % 10))
    }
}

/// Whether two string slices hold the same characters.
pub fn str_eq(a: &str, b: &str) -> (same: bool)
    ensures
        same == (a@ == b@),
{
    let left = a.to_owned();
    let right = b.to_owned();
    left == right
}

/// An owned copy of a string slice.
pub fn owned(s: &str) -> (copy: String)
    ensures
        copy@ == s@,
{
    s.to_owned()
}

/// The concatenation of two string slices.
pub fn concat2(a: &str, b: &str) -> (out: String)
    ensures
        out@ == a@ + b@,
{
    let mut out = a.to_owned();
    out.append(b);
    out
}

/// Whether a list holds a string with the given characters.
pub fn list_contains(list: &Vec<String>, needle: &str) -> (found: bool)
    ensures
        found == views(list@).contains(needle@),
{
    let mut i: usize = 0;
    while i < list.len()
        invariant
            i <= list.len(),
            forall|j: int| 0 <= j < i ==> views(list@)[j] != needle@,
        decreases list.len() - i,
    {
        if str_eq(list[i].as_str(), needle) {
            assert(views(list@)[i as int] == needle@);
            return true;
        }
        i += 1;
    }
    false
}

/// A copy of a list of strings.
pub fn clone_list(list: &Vec<String>) -> (copy: Vec<String>)
    ensures
        copy@ == list@,
{
    let mut copy: Vec<String> = Vec::new();
    let mut i: usize = 0;
    while i < list.len()
        invariant
            i <= list.len(),
            copy@ == list@.take(i as int),
        decreases list.len() - i,
    {
        copy.push(list[i].clone());
        assert(list@.take(i + 1) == list@.take(i as int).push(list@[i as int]));
        i += 1;
    }
    assert(list@.take(list.len() as int) == list@);
    copy
}

/// A copy of an optional string.
pub fn clone_opt(value: &Option<String>) -> (copy: Option<String>)
    ensures
        copy == *value,
{
    match value {
        Some(s) => Some(s.clone()),
        None => None,
    }
}

fn digit_text(d: u64) -> (text: &'static str)
    requires
        d < 10,
    ensures
        text@ == seq![digit_char(d as nat)],
{
    proof {
        reveal_strlit("0");
        reveal_strlit("1");
        reveal_strlit("2");
        reveal_strlit("3");
        reveal_strlit("4");
        reveal_strlit("5");
        reveal_strlit("6");
        reveal_strlit("7");
        reveal_strlit("8");
        reveal_strlit("9");
    }
    let text = if d == 0 {
        "0"
    } else if d == 1 {
        "1"
    } else if d == 2 {
        "2"
    } else if d == 3 {
        "3"
    } else if d == 4 {
        "4"
    } else if d == 5 {
        "5"
    } else if d == 6 {
        "6"
    } else if d == 7 {
        "7"
    } else if d == 8 {
        "8"
    } else {
        "9"
    };
    assert(text@ =~= seq![digit_char(d as nat)]);
    text
}

/// A number written in base ten.
pub fn decimal_text(n: u64) -> (text: String)
    ensures
        text@ == decimal(n as nat),
    decreases n,
{
    if n < 10 {
        owned(digit_text(n))
    } else {
        let mut text = decimal_text(n / 10);
        text.append(digit_text(n % 10));
        assert(text@ =~= decimal(n as nat));
        text
    }
}

/// The strings of a list in one string, with a separator between neighbours.
pub fn join(parts: &Vec<String>, separator: &str) -> (out: String)
    ensures
        out@ == joined(views(parts@), separator@),
{
    let mut out = String::new();
    let mut i: usize = 0;
    while i < parts.len()
        invariant
            i <= parts.len(),
            out@ == joined(views(parts@).take(i as int), separator@),
        decreases parts.len() - i,
    {
        let ghost before = views(parts@).take(i as int);
        let ghost after = views(parts@).take(i + 1);
        assert(after.drop_last() == before);
        assert(after.last() == parts@[i as int]@);
        if i > 0 {
            out.append(separator);
        }
        out.append(parts[i].as_str());
        proof {
            if i == 0 {
                assert(joined(after, separator@) == after[0]);
                assert(out@ =~= after[0]);
            } else {
                assert(out@ =~= joined(before, separator@) + separator@ + after.last());
            }
        }
        i += 1;
    }
    assert(views(parts@).take(parts.len() as int) == views(parts@));
    out
}


/// Where, at or after `from`, a key first stands in a list of keys.
pub open spec fn key_position(keys: Seq<Seq<char>>, key: Seq<char>, from: int) -> Option<int>
    decreases keys.len() - from,
{
    if from < 0 || from >= keys.len() {
        None
    } else if keys[from] == key {
        Some(from)
    } else {
        key_position(keys, key, from + 1)
    }
}

/// Where a key first stands in a list of keys.
pub open spec fn first_position(keys: Seq<Seq<char>>, key: Seq<char>) -> Option<int> {
    key_position(keys, key, 0)
}

/// `key_position` finds the first place of the key at or after `from`, and finds none
/// only where the key stands nowhere from there on.
pub proof fn lemma_key_position(keys: Seq<Seq<char>>, key: Seq<char>, from: int)
    requires
        0 <= from,
    ensures
        match key_position(keys, key, from) {
            Some(i) => {
                &&& from <= i < keys.len()
                &&& keys[i] == key
                &&& forall|j: int| from <= j < i ==> keys[j] != key
            },
            None => forall|j: int| from <= j < keys.len() ==> keys[j] != key,
        },
    decreases keys.len() - from,
{
    if from < keys.len() && keys[from] != key {
        lemma_key_position(keys, key, from + 1);
    }
}

/// The first place at or after `from` whose key stands at an earlier place too.
pub open spec fn first_repeat(keys: Seq<Seq<char>>, from: int) -> Option<int>
    decreases keys.len() - from,
{
    if from < 0 || from >= keys.len() {
        None
    } else if first_position(keys, keys[from]) != Some(from) {
        Some(from)
    } else {
        first_repeat(keys, from + 1)
    }
}

/// `first_repeat` finds the first place at or after `from` that is not the first place
/// of its key, and finds none only where there is no such place from there on.
pub proof fn lemma_first_repeat(keys: Seq<Seq<char>>, from: int)
    requires
        0 <= from,
    ensures
        match first_repeat(keys, from) {
            Some(i) => {
                &&& from <= i < keys.len()
                &&& first_position(keys, keys[i]) != Some(i)
                &&& forall|j: int| from <= j < i ==> first_position(keys, #[trigger] keys[j]) == Some(j)
            },
            None => forall|j: int|
                from <= j < keys.len() ==> first_position(keys, #[trigger] keys[j]) == Some(j),
        },
    decreases keys.len() - from,
{
    if from < keys.len() && first_position(keys, keys[from]) == Some(from) {
        lemma_first_repeat(keys, from + 1);
    }
}

/// A list has no place that repeats an earlier key exactly where no key stands in it
/// twice.
pub proof fn lemma_no_repeat(keys: Seq<Seq<char>>)
    ensures
        first_repeat(keys, 0) is None <==> keys.no_duplicates(),
{
    lemma_first_repeat(keys, 0);
    if first_repeat(keys, 0) is None {
        assert forall|i: int, j: int|
            0 <= i < keys.len() && 0 <= j < keys.len() && i != j implies keys[i] != keys[j] by {
            assert(first_position(keys, keys[i]) == Some(i));
            assert(first_position(keys, keys[j]) == Some(j));
        }
    } else {
        let i = first_repeat(keys, 0)->0;
        lemma_key_position(keys, keys[i], 0);
        let k = first_position(keys, keys[i])->0;
        assert(keys[k] == keys[i] && k != i);
    }
}

/// A key has a first position exactly where the list contains it.
pub proof fn lemma_first_position_contains(keys: Seq<Seq<char>>, key: Seq<char>)
    ensures
        first_position(keys, key) is Some <==> keys.contains(key),
{
    lemma_key_position(keys, key, 0);
}


/// A list that never repeats and whose items all stand in another list is no longer
/// than that other list.
pub proof fn lemma_distinct_within(items: Seq<Seq<char>>, universe: Seq<Seq<char>>)
    requires
        items.no_duplicates(),
        forall|i: int| 0 <= i < items.len() ==> universe.contains(#[trigger] items[i]),
    ensures
        items.len() <= universe.len(),
{
    items.unique_seq_to_set();
    universe.lemma_cardinality_of_set();
    vstd::seq_lib::seq_to_set_is_finite(universe);
    assert(items.to_set().subset_of(universe.to_set())) by {
        assert forall|x: Seq<char>| items.to_set().contains(x) implies universe.to_set().contains(
            x,
        ) by {
            let i = choose|i: int| 0 <= i < items.len() && items[i] == x;
            assert(universe.contains(items[i]));
        }
    }
    vstd::set_lib::lemma_len_subset(items.to_set(), universe.to_set());
}

/// Adds a string to a list unless the list holds one with the same characters.
pub fn push_unique(list: &mut Vec<String>, item: &str) -> (added: bool)
    ensures
        added == !views(old(list)@).contains(item@),
        views(final(list)@) == if added {
            views(old(list)@).push(item@)
        } else {
            views(old(list)@)
        },
        !added ==> final(list)@ == old(list)@,
        views(old(list)@).no_duplicates() ==> views(final(list)@).no_duplicates(),
{
    if list_contains(list, item) {
        false
    } else {
        let ghost before = views(list@);
        list.push(owned(item));
        assert(views(list@) =~= before.push(item@));
        proof {
            if before.no_duplicates() {
                assert forall|a: int, b: int|
                    0 <= a < before.len() + 1 && 0 <= b < before.len() + 1 && a != b implies views(
                    list@,
                )[a] != views(list@)[b] by {
                    if a < before.len() && b < before.len() {
                        assert(before[a] != before[b]);
                    } else if a < before.len() {
                        assert(before.contains(before[a]));
                    } else {
                        assert(before.contains(before[b]));
                    }
                }
            }
        }
        true
    }
}


/// An integer written in base ten, with a minus sign where it is negative.
pub open spec fn signed_decimal(n: int) -> Seq<char> {
    if n < 0 {
        "-"@ + decimal((-n) as nat)
    } else {
        decimal(n as nat)
    }
}

/// An integer written in base ten.
pub fn signed_decimal_text(n: i64) -> (text: String)
    ensures
        text@ == signed_decimal(n as int),
{
    if n < 0 {
        let size: u64 = (-(n as i128)) as u64;
        let digits = decimal_text(size);
        concat2("-", digits.as_str())
    } else {
        decimal_text(n as u64)
    }
}

} // verus!
