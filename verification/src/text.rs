//! Text helpers: the order of names, splitting, and joining.
use vstd::prelude::*;

verus! {

/// The contents of a list of strings.
pub open spec fn texts(list: Seq<String>) -> Seq<Seq<char>> {
    list.map_values(|s: String| s@)
}

/// The text, where there is one.
pub open spec fn optional(text: Option<String>) -> Option<Seq<char>> {
    match text {
        Some(text) => Some(text@),
        None => None,
    }
}

/// `a` comes strictly before `b` in the lexicographic order of code points,
/// the order in which `str` compares.
pub open spec fn precedes(a: Seq<char>, b: Seq<char>) -> bool
    decreases a.len(),
{
    if b.len() == 0 {
        false
    } else if a.len() == 0 {
        true
    } else if a[0] == b[0] {
        precedes(a.drop_first(), b.drop_first())
    } else {
        a[0] < b[0]
    }
}

/// Nothing precedes itself.
pub proof fn lemma_precedes_irreflexive(a: Seq<char>)
    ensures
        !precedes(a, a),
    decreases a.len(),
{
    if a.len() > 0 {
        lemma_precedes_irreflexive(a.drop_first());
    }
}

/// The order is transitive.
pub proof fn lemma_precedes_transitive(a: Seq<char>, b: Seq<char>, c: Seq<char>)
    requires
        precedes(a, b),
        precedes(b, c),
    ensures
        precedes(a, c),
    decreases a.len(),
{
    if a.len() > 0 && a[0] == b[0] && b[0] == c[0] {
        lemma_precedes_transitive(a.drop_first(), b.drop_first(), c.drop_first());
    }
}

/// The characters of a text.
fn chars_of(text: &str) -> (res: Vec<char>)
    ensures
        res@ == text@,
{
    let mut res: Vec<char> = Vec::new();
    for c in it: text.chars()
        invariant
            it.seq() == text@,
            res@ =~= text@.take(it.index()),
    {
        res.push(c);
    }
    res
}

/// How two texts stand to each other.
#[derive(Clone, Copy, PartialEq, Eq, Structural)]
pub enum Relation {
    Before,
    Same,
    After,
}

/// Compares two texts by code points.
pub fn relate(a: &str, b: &str) -> (res: Relation)
    ensures
        res == Relation::Same <==> a@ == b@,
        res == Relation::Before <==> precedes(a@, b@),
        res == Relation::After <==> precedes(b@, a@),
{
    let left: Vec<char> = chars_of(a);
    let right: Vec<char> = chars_of(b);
    proof {
        lemma_precedes_irreflexive(a@);
        if precedes(a@, b@) && precedes(b@, a@) {
            lemma_precedes_transitive(a@, b@, a@);
        }
        assert(left@.skip(0) =~= left@);
        assert(right@.skip(0) =~= right@);
    }
    let mut i: usize = 0;
    while i < left.len() && i < right.len()
        invariant
            left@ == a@,
            right@ == b@,
            i <= left.len(),
            i <= right.len(),
            left@.take(i as int) =~= right@.take(i as int),
            precedes(a@, b@) <==> precedes(left@.skip(i as int), right@.skip(i as int)),
            precedes(b@, a@) <==> precedes(right@.skip(i as int), left@.skip(i as int)),
            !(precedes(a@, b@) && precedes(b@, a@)),
            !precedes(a@, a@),
        decreases left.len() - i,
    {
        if left[i] != right[i] {
            proof {
                assert(left@.skip(i as int)[0] == left@[i as int]);
                assert(right@.skip(i as int)[0] == right@[i as int]);
            }
            if left[i] < right[i] {
                return Relation::Before;
            }
            return Relation::After;
        }
        proof {
            assert(left@.skip(i as int).drop_first() =~= left@.skip(i + 1));
            assert(right@.skip(i as int).drop_first() =~= right@.skip(i + 1));
        }
        i = i + 1;
    }
    if i < left.len() {
        Relation::After
    } else if i < right.len() {
        Relation::Before
    } else {
        assert(left@.take(i as int) =~= left@);
        assert(right@.take(i as int) =~= right@);
        Relation::Same
    }
}

/// Whether two texts are the same.
pub fn same_text(a: &str, b: &str) -> (res: bool)
    ensures
        res == (a@ == b@),
{
    relate(a, b) == Relation::Same
}

/// `list` is in strictly ascending order: sorted, and nothing occurs twice.
pub open spec fn ascending(list: Seq<Seq<char>>) -> bool {
    forall|i: int, j: int| 0 <= i < j < list.len() ==> precedes(list[i], list[j])
}

/// A strictly ascending list is determined by what occurs in it.
pub proof fn lemma_ascending_unique(a: Seq<Seq<char>>, b: Seq<Seq<char>>)
    requires
        ascending(a),
        ascending(b),
        a.to_set() == b.to_set(),
    ensures
        a == b,
    decreases a.len(),
{
    if a.len() == 0 {
        if b.len() > 0 {
            assert(b.to_set().contains(b[0]));
            assert(a.contains(b[0]));
        }
        assert(a =~= b);
    } else {
        assert(a.to_set().contains(a[0]));
        assert(b.contains(a[0]));
        let i = choose|i: int| 0 <= i < b.len() && b[i] == a[0];
        assert(b.to_set().contains(b[0]));
        assert(a.contains(b[0]));
        let j = choose|j: int| 0 <= j < a.len() && a[j] == b[0];
        if i > 0 && j > 0 {
            lemma_precedes_transitive(b[0], a[0], b[0]);
            lemma_precedes_irreflexive(b[0]);
        }
        assert(a[0] == b[0]);
        let ta = a.drop_first();
        let tb = b.drop_first();
        assert forall|x: Seq<char>| ta.to_set().contains(x) == tb.to_set().contains(x) by {
            lemma_tail_membership(a, x);
            lemma_tail_membership(b, x);
        }
        assert(ta.to_set() =~= tb.to_set());
        lemma_ascending_unique(ta, tb);
        assert(a =~= seq![a[0]] + ta);
        assert(b =~= seq![b[0]] + tb);
    }
}

/// What occurs behind the head of an ascending list is what occurs in it,
/// less the head.
proof fn lemma_tail_membership(list: Seq<Seq<char>>, x: Seq<char>)
    requires
        ascending(list),
        list.len() > 0,
    ensures
        list.drop_first().to_set().contains(x) <==> list.to_set().contains(x) && x != list[0],
{
    let tail = list.drop_first();
    if tail.contains(x) {
        let i = choose|i: int| 0 <= i < tail.len() && tail[i] == x;
        assert(list[i + 1] == x);
        lemma_precedes_irreflexive(x);
    }
    if list.contains(x) && x != list[0] {
        let i = choose|i: int| 0 <= i < list.len() && list[i] == x;
        assert(tail[i - 1] == x);
    }
}

/// `text` split at the first occurrence of `separator`, which belongs to
/// neither part.
pub open spec fn split_at_first(text: Seq<char>, separator: char) -> Option<
    (Seq<char>, Seq<char>),
>
    decreases text.len(),
{
    if text.len() == 0 {
        None
    } else if text[0] == separator {
        Some((Seq::empty(), text.drop_first()))
    } else {
        match split_at_first(text.drop_first(), separator) {
            Some((before, after)) => Some((seq![text[0]] + before, after)),
            None => None,
        }
    }
}

/// A text splits exactly where the separator occurs in it: the part before
/// does not hold the separator, and the parts make up the text again.
pub proof fn lemma_split_parts(text: Seq<char>, separator: char)
    ensures
        match split_at_first(text, separator) {
            Some((before, after)) => {
                &&& text == before + seq![separator] + after
                &&& !before.contains(separator)
            },
            None => !text.contains(separator),
        },
    decreases text.len(),
{
    if text.len() > 0 && text[0] != separator {
        let tail = text.drop_first();
        lemma_split_parts(tail, separator);
        assert(text =~= seq![text[0]] + tail);
        match split_at_first(tail, separator) {
            Some((before, after)) => {
                let whole = seq![text[0]] + before;
                assert(text =~= whole + seq![separator] + after);
                if whole.contains(separator) {
                    let i = choose|i: int| 0 <= i < whole.len() && whole[i] == separator;
                    assert(before[i - 1] == separator);
                }
            },
            None => {
                if text.contains(separator) {
                    let i = choose|i: int| 0 <= i < text.len() && text[i] == separator;
                    assert(tail[i - 1] == separator);
                }
            },
        }
    } else if text.len() > 0 {
        assert(text =~= Seq::<char>::empty() + seq![separator] + text.drop_first());
    }
}

/// Parts joined by a separator that the first does not hold split again into
/// the same parts.
pub proof fn lemma_split_joined(before: Seq<char>, separator: char, after: Seq<char>)
    requires
        !before.contains(separator),
    ensures
        split_at_first(before + seq![separator] + after, separator) == Some((before, after)),
    decreases before.len(),
{
    let text = before + seq![separator] + after;
    if before.len() == 0 {
        assert(before =~= Seq::<char>::empty());
        assert(text.drop_first() =~= after);
    } else {
        let tail = before.drop_first();
        assert(before.contains(before[0]));
        assert forall|i: int| 0 <= i < tail.len() implies tail[i] != separator by {
            assert(before.contains(before[i + 1]));
        }
        lemma_split_joined(tail, separator, after);
        assert(text.drop_first() =~= tail + seq![separator] + after);
        assert(before =~= seq![before[0]] + tail);
    }
}

/// A text that does not hold the separator does not split.
pub proof fn lemma_split_absent(text: Seq<char>, separator: char)
    requires
        !text.contains(separator),
    ensures
        split_at_first(text, separator) is None,
{
    lemma_split_parts(text, separator);
    if let Some((before, after)) = split_at_first(text, separator) {
        assert(text[before.len() as int] == separator);
    }
}

/// Splits `text` at the first occurrence of `separator`.
pub fn split_once<'a>(text: &'a str, separator: char) -> (res: Option<(&'a str, &'a str)>)
    ensures
        match res {
            Some((before, after)) => split_at_first(text@, separator) == Some((before@, after@)),
            None => split_at_first(text@, separator) is None,
        },
{
    let chars: Vec<char> = chars_of(text);
    let mut i: usize = 0;
    while i < chars.len()
        invariant
            chars@ == text@,
            i <= chars.len(),
            forall|j: int| 0 <= j < i ==> chars@[j] != separator,
        decreases chars.len() - i,
    {
        if chars[i] == separator {
            let before: &'a str = text.substring_char(0, i);
            let after: &'a str = text.substring_char(i + 1, chars.len());
            proof {
                assert(text@ =~= before@ + seq![separator] + after@);
                lemma_split_joined(before@, separator, after@);
            }
            return Some((before, after));
        }
        i = i + 1;
    }
    proof {
        lemma_split_absent(text@, separator);
    }
    None
}

/// The parts one behind the other, with `separator` between each two.
pub open spec fn joined(parts: Seq<Seq<char>>, separator: Seq<char>) -> Seq<char>
    decreases parts.len(),
{
    if parts.len() == 0 {
        Seq::empty()
    } else if parts.len() == 1 {
        parts[0]
    } else {
        joined(parts.drop_last(), separator) + separator + parts.last()
    }
}

/// Joins the parts with `separator` between each two.
pub fn join(parts: &Vec<String>, separator: &str) -> (res: String)
    ensures
        res@ == joined(texts(parts@), separator@),
{
    let mut res: String = String::new();
    let mut i: usize = 0;
    while i < parts.len()
        invariant
            i <= parts.len(),
            res@ == joined(texts(parts@).take(i as int), separator@),
        decreases parts.len() - i,
    {
        if i > 0 {
            res.append(separator);
        }
        res.append(parts[i].as_str());
        proof {
            let all = texts(parts@);
            assert(all.take(i + 1).drop_last() =~= all.take(i as int));
            assert(all.take(i + 1).last() == all[i as int]);
            if i == 0 {
                assert(res@ =~= all[0]);
            }
        }
        i = i + 1;
    }
    assert(texts(parts@).take(parts@.len() as int) =~= texts(parts@));
    res
}

/// The first `count` names, each with the value at the same place. Where a name
/// occurs again, the later value holds.
pub open spec fn bound_first<T>(names: Seq<Seq<char>>, values: Seq<T>, count: nat) -> Map<
    Seq<char>,
    T,
>
    decreases count,
{
    if count == 0 {
        Map::empty()
    } else {
        bound_first(names, values, (count - 1) as nat).insert(names[count - 1], values[count - 1])
    }
}

/// Names bound to values, place by place, as far as there are both.
pub open spec fn bound<T>(names: Seq<Seq<char>>, values: Seq<T>) -> Map<Seq<char>, T> {
    bound_first(
        names,
        values,
        if names.len() <= values.len() {
            names.len()
        } else {
            values.len()
        },
    )
}

/// The first `count` names are those that are bound.
proof fn lemma_bound_first<T>(names: Seq<Seq<char>>, values: Seq<T>, count: nat, name: Seq<char>)
    requires
        count <= names.len(),
    ensures
        bound_first(names, values, count).contains_key(name) <==> exists|i: int|
            0 <= i < count && #[trigger] names[i] == name,
    decreases count,
{
    if count > 0 {
        lemma_bound_first(names, values, (count - 1) as nat, name);
        if name == names[count - 1] {
            assert(0 <= count - 1 < count && names[count - 1] == name);
        }
    }
}

/// Where there is a value for each name, the names bound are those given.
pub proof fn law_bound<T>(names: Seq<Seq<char>>, values: Seq<T>)
    requires
        names.len() == values.len(),
    ensures
        bound(names, values).dom() == names.to_set(),
{
    assert forall|name: Seq<char>|
        bound(names, values).dom().contains(name) == names.to_set().contains(name) by {
        lemma_bound_first(names, values, names.len(), name);
        if exists|i: int| 0 <= i < names.len() && #[trigger] names[i] == name {
            assert(names.contains(name));
        }
    }
    assert(bound(names, values).dom() =~= names.to_set());
}

/// A name is bound to the value at the last place where it occurs.
pub proof fn law_bound_last<T>(names: Seq<Seq<char>>, values: Seq<T>, i: int)
    requires
        names.len() == values.len(),
        0 <= i < names.len(),
        forall|j: int| i < j < names.len() ==> names[j] != names[i],
    ensures
        bound(names, values)[names[i]] == values[i],
{
    lemma_bound_last(names, values, names.len(), i);
}

/// A name is bound to the value at the last of the first `count` places where it
/// occurs.
proof fn lemma_bound_last<T>(names: Seq<Seq<char>>, values: Seq<T>, count: nat, i: int)
    requires
        count <= names.len(),
        0 <= i < count,
        forall|j: int| i < j < count ==> names[j] != names[i],
    ensures
        bound_first(names, values, count)[names[i]] == values[i],
    decreases count,
{
    if i < count - 1 {
        lemma_bound_last(names, values, (count - 1) as nat, i);
        assert(names[count - 1] != names[i]);
    }
}

/// The texts one behind the other.
pub fn glue(a: &str, b: &str, c: &str) -> (res: String)
    ensures
        res@ == a@ + b@ + c@,
{
    let mut res: String = String::new();
    res.append(a);
    res.append(b);
    res.append(c);
    assert(res@ =~= a@ + b@ + c@);
    res
}

/// The contents of a list of strings: as many, each at its place.
pub proof fn law_texts(list: Seq<String>)
    ensures
        texts(list).len() == list.len(),
        forall|i: int| 0 <= i < list.len() ==> #[trigger] texts(list)[i] == list[i]@,
{
}

/// A text is there exactly if there is a string, and is what it holds.
pub proof fn law_optional(text: String)
    ensures
        optional(Some(text)) == Some(text@),
        optional(None) == None::<Seq<char>>,
{
}

/// One text precedes another exactly if it is a proper beginning of it, or has the
/// smaller character at the first place where they differ.
pub proof fn law_precedes(a: Seq<char>, b: Seq<char>)
    ensures
        precedes(a, b) <==> exists|k: int|
            0 <= k <= a.len() && k < b.len() && #[trigger] a.take(k) == b.take(k) && (k == a.len()
                || a[k] < b[k]),
    decreases a.len(),
{
    if a.len() == 0 {
        if b.len() > 0 {
            assert(a.take(0) =~= b.take(0));
        }
    } else if b.len() > 0 {
        let x = a.drop_first();
        let y = b.drop_first();
        law_precedes(x, y);
        if precedes(a, b) {
            if a[0] == b[0] {
                let k = choose|k: int|
                    0 <= k <= x.len() && k < y.len() && #[trigger] x.take(k) == y.take(k) && (k
                        == x.len() || x[k] < y[k]);
                assert(a.take(k + 1) =~= seq![a[0]] + x.take(k));
                assert(b.take(k + 1) =~= seq![b[0]] + y.take(k));
            } else {
                assert(a.take(0) =~= b.take(0));
            }
        }
        if exists|k: int|
            0 <= k <= a.len() && k < b.len() && #[trigger] a.take(k) == b.take(k) && (k == a.len()
                || a[k] < b[k]) {
            let k = choose|k: int|
                0 <= k <= a.len() && k < b.len() && #[trigger] a.take(k) == b.take(k) && (k
                    == a.len() || a[k] < b[k]);
            if k > 0 {
                assert(a.take(k)[0] == b.take(k)[0]);
                assert(x.take(k - 1) =~= a.take(k).drop_first());
                assert(y.take(k - 1) =~= b.take(k).drop_first());
            }
        }
    }
}

/// A list is ascending exactly if each text in it precedes every later one; then
/// nothing occurs twice.
pub proof fn law_ascending(list: Seq<Seq<char>>)
    ensures
        ascending(list) <==> forall|i: int, j: int|
            0 <= i < j < list.len() ==> precedes(#[trigger] list[i], #[trigger] list[j]),
        ascending(list) ==> list.no_duplicates(),
{
    if ascending(list) {
        assert forall|i: int, j: int| 0 <= i < j < list.len() implies list[i] != list[j] by {
            lemma_precedes_irreflexive(list[i]);
        }
    }
}

/// Nothing joined is nothing, one part joined is that part, and a part behind others
/// comes behind a separator.
pub proof fn law_joined(parts: Seq<Seq<char>>, part: Seq<char>, separator: Seq<char>)
    ensures
        joined(Seq::empty(), separator) == Seq::<char>::empty(),
        joined(seq![part], separator) == part,
        parts.len() > 0 ==> joined(parts.push(part), separator) == joined(parts, separator)
            + separator + part,
{
    assert(parts.push(part).drop_last() =~= parts);
}

/// Only as many names are bound as there are values, and only as many values count
/// as there are names.
pub proof fn law_bound_short<T>(names: Seq<Seq<char>>, values: Seq<T>, count: int)
    requires
        count == if names.len() <= values.len() {
            names.len() as int
        } else {
            values.len() as int
        },
    ensures
        bound(names, values) == bound(names.take(count), values.take(count)),
{
    lemma_bound_prefix(names, values, count, count as nat);
}

/// What the first names are bound to does not depend on what comes behind them.
proof fn lemma_bound_prefix<T>(names: Seq<Seq<char>>, values: Seq<T>, count: int, first: nat)
    requires
        first <= count <= names.len(),
        count <= values.len(),
    ensures
        bound_first(names, values, first) == bound_first(
            names.take(count),
            values.take(count),
            first,
        ),
    decreases first,
{
    if first > 0 {
        lemma_bound_prefix(names, values, count, (first - 1) as nat);
    }
}

} // verus!
