use crate::util::text::{chars_of, lemma_find, split, trim, trim_bounds};
use vstd::prelude::*;
use vstd::string::*;

verus! {

/// A field to sort by and the direction: 1 for ascending, -1 for descending.
pub type SortKey = (Seq<char>, int);

/// The field and direction that one piece of a sort parameter names: a
/// leading `-` asks for descending order, a leading `+` or nothing for
/// ascending.
pub open spec fn sort_key(piece: Seq<char>) -> SortKey
    recommends
        piece.len() > 0,
{
    if piece[0] == '-' {
        (piece.skip(1), -1)
    } else if piece[0] == '+' {
        (piece.skip(1), 1)
    } else {
        (piece, 1)
    }
}

/// What a list of sort keys is in contracts.
pub open spec fn sort_keys_view(keys: Seq<(String, i32)>) -> Seq<SortKey> {
    keys.map_values(|key: (String, i32)| (key.0@, key.1 as int))
}

/// The pieces of a comma-separated text that are left once each is trimmed
/// and the empty ones are dropped.
pub open spec fn items_of(pieces: Seq<Seq<char>>) -> Seq<Seq<char>>
    decreases pieces.len(),
{
    if pieces.len() == 0 {
        Seq::empty()
    } else {
        let piece = trim(pieces[0]);
        let rest = items_of(pieces.drop_first());
        if piece.len() == 0 {
            rest
        } else {
            seq![piece] + rest
        }
    }
}

/// The items of a comma-separated text.
pub open spec fn comma_separated(text: Seq<char>) -> Seq<Seq<char>> {
    items_of(split(text, ','))
}

/// The sort keys that the items of a sort parameter name, one for each.
pub open spec fn sort_keys(items: Seq<Seq<char>>) -> Seq<SortKey> {
    items.map_values(|piece: Seq<char>| sort_key(piece))
}

/// The sort keys that a sort parameter names: one for each of its items.
pub open spec fn parsed_sort_fields(sort: Seq<char>) -> Seq<SortKey> {
    sort_keys(comma_separated(sort))
}

/// The characters of each text of a list.
pub open spec fn texts_view(texts: Seq<String>) -> Seq<Seq<char>> {
    texts.map_values(|text: String| text@)
}

proof fn lemma_split_step(s: Seq<char>, start: int, end: int)
    requires
        0 <= start <= end <= s.len(),
        forall|k: int| start <= k < end ==> s[k] != ',',
        end == s.len() || s[end] == ',',
    ensures
        end == s.len() ==> split(s.skip(start), ',') == seq![s.subrange(start, end)],
        end < s.len() ==> split(s.skip(start), ',') == seq![s.subrange(start, end)] + split(
            s.skip(end + 1),
            ',',
        ),
{
    let t = s.skip(start);
    lemma_find(t, ',', end - start);
    assert(t.take(end - start) =~= s.subrange(start, end));
    if end < s.len() {
        assert(t.skip(end - start + 1) =~= s.skip(end + 1));
    } else {
        assert(t =~= s.subrange(start, end));
    }
}

/// The items of a comma-separated text: what stands between the commas,
/// trimmed, without what is empty then.
pub fn comma_separated_items(text: &str) -> (items: Vec<String>)
    ensures
        texts_view(items@) == comma_separated(text@),
        forall|i: int| 0 <= i && i < items@.len() ==> (#[trigger] items@[i])@.len() > 0,
{
    let chars = chars_of(text);
    let n = chars.len();
    let ghost s = text@;
    let mut out: Vec<String> = Vec::new();
    let mut start: usize = 0;
    proof {
        assert(s.skip(0) =~= s);
        assert(texts_view(out@) + comma_separated(s) =~= comma_separated(s));
    }
    loop
        invariant
            chars@ == s,
            s == text@,
            n == s.len(),
            start <= n,
            comma_separated(s) == texts_view(out@) + items_of(split(s.skip(start as int), ',')),
            forall|i: int| 0 <= i && i < out@.len() ==> (#[trigger] out@[i])@.len() > 0,
        decreases n - start,
    {
        let mut end = start;
        while end < n && chars[end] != ','
            invariant
                chars@ == s,
                n == s.len(),
                start <= end <= n,
                forall|k: int| start <= k < end ==> s[k] != ',',
            decreases n - end,
        {
            end += 1;
        }
        let (a, b) = trim_bounds(&chars, start, end);
        let ghost before = texts_view(out@);
        let ghost piece = s.subrange(a as int, b as int);
        let ghost pieces = split(s.skip(start as int), ',');
        proof {
            lemma_split_step(s, start as int, end as int);
            assert(pieces[0] == s.subrange(start as int, end as int));
            assert(piece == trim(pieces[0]));
        }
        if a < b {
            let item = text.substring_char(a, b).to_owned();
            proof {
                assert(texts_view(out@.push(item)) =~= before + seq![piece]);
            }
            out.push(item);
        }
        if end == n {
            proof {
                assert(pieces =~= seq![pieces[0]]);
                assert(pieces.drop_first() =~= Seq::<Seq<char>>::empty());
                assert(items_of(pieces.drop_first()) =~= Seq::<Seq<char>>::empty());
                assert(texts_view(out@) =~= before + items_of(pieces));
            }
            return out;
        }
        proof {
            assert(pieces.drop_first() =~= split(s.skip(end + 1), ','));
            assert(texts_view(out@) + items_of(split(s.skip(end + 1), ',')) =~= before + items_of(
                pieces,
            ));
        }
        start = end + 1;
    }
}

/// Reads a sort parameter such as `price,-year,+brand`: a list of fields
/// between commas, each with an optional `+` or `-` before it.
pub fn parse_sort_fields(sort_str: &str) -> (fields: Vec<(String, i32)>)
    ensures
        sort_keys_view(fields@) == parsed_sort_fields(sort_str@),
{
    let items = comma_separated_items(sort_str);
    let ghost pieces = comma_separated(sort_str@);
    let mut out: Vec<(String, i32)> = Vec::new();
    let mut i: usize = 0;
    while i < items.len()
        invariant
            i <= items@.len(),
            out@.len() == i,
            texts_view(items@) == pieces,
            forall|k: int| 0 <= k && k < items@.len() ==> (#[trigger] items@[k])@.len() > 0,
            sort_keys_view(out@) == sort_keys(pieces.take(i as int)),
        decreases items@.len() - i,
    {
        let item = items[i].as_str();
        let n = item.unicode_len();
        let first = item.get_char(0);
        let key = if first == '-' {
            (item.substring_char(1, n).to_owned(), -1i32)
        } else if first == '+' {
            (item.substring_char(1, n).to_owned(), 1i32)
        } else {
            (item.to_owned(), 1i32)
        };
        proof {
            let piece = pieces[i as int];
            let before = sort_keys_view(out@);
            let more = sort_keys_view(out@.push(key));
            assert(pieces.len() == items@.len());
            assert(piece == item@);
            assert(piece.skip(1) =~= piece.subrange(1, n as int));
            assert(more[i as int] == sort_key(piece));
            assert forall|k: int| 0 <= k && k < i + 1 implies #[trigger] more[k] == sort_keys(
                pieces.take(i + 1),
            )[k] by {
                if k < i {
                    assert(more[k] == before[k]);
                    assert(before[k] == sort_keys(pieces.take(i as int))[k]);
                }
            }
            assert(more =~= sort_keys(pieces.take(i + 1)));
        }
        out.push(key);
        i += 1;
    }
    proof {
        assert(pieces.take(i as int) =~= pieces);
    }
    out
}

/// Reads a comma-separated text: its items, trimmed, without the empty ones.
/// A text that is absent or holds only white space gives `None`.
pub fn split_comma_separated(text: Option<&str>) -> (items: Option<Vec<String>>)
    ensures
        match text {
            None => items is None,
            Some(t) => if trim(t@).len() == 0 {
                items is None
            } else {
                items is Some && texts_view(items->Some_0@) == comma_separated(t@)
            },
        },
{
    let line = match text {
        None => {
            return None;
        },
        Some(t) => t,
    };
    let chars = chars_of(line);
    let (lo, hi) = trim_bounds(&chars, 0, chars.len());
    proof {
        assert(line@.subrange(0, line@.len() as int) =~= line@);
    }
    if lo == hi {
        return None;
    }
    Some(comma_separated_items(line))
}

/// A type whose values can be read from a text.
pub trait FromText: Sized {
    /// Whether the text names a value of the type.
    spec fn readable(text: Seq<char>) -> bool;

    /// Whether the text names this value.
    spec fn reads_as(text: Seq<char>, item: Self) -> bool;

    /// What is said of a text that names no value.
    spec fn complaint(text: Seq<char>) -> Seq<char>;

    fn from_text(text: &str) -> (r: Result<Self, String>)
        ensures
            r is Ok <==> Self::readable(text@),
            r matches Ok(item) ==> Self::reads_as(text@, item),
            r matches Err(message) ==> message@ == Self::complaint(text@),
    ;
}

impl FromText for String {
    open spec fn readable(text: Seq<char>) -> bool {
        true
    }

    open spec fn reads_as(text: Seq<char>, item: String) -> bool {
        item@ == text
    }

    open spec fn complaint(text: Seq<char>) -> Seq<char> {
        Seq::empty()
    }

    fn from_text(text: &str) -> (r: Result<String, String>) {
        Ok(text.to_owned())
    }
}

/// Whether every item of a list names a value of the type.
pub open spec fn all_readable<T: FromText>(items: Seq<Seq<char>>) -> bool {
    forall|i: int| 0 <= i && i < items.len() ==> T::readable(#[trigger] items[i])
}

/// Whether a list of values is what a list of items names, one by one.
pub open spec fn read_as<T: FromText>(items: Seq<Seq<char>>, values: Seq<T>) -> bool {
    values.len() == items.len() && forall|i: int|
        0 <= i && i < items.len() ==> T::reads_as(#[trigger] items[i], values[i])
}

/// Whether a message complains of the first item that names no value.
pub open spec fn complains_of_first<T: FromText>(
    items: Seq<Seq<char>>,
    message: Seq<char>,
) -> bool {
    exists|i: int|
        0 <= i && i < items.len() && !T::readable(#[trigger] items[i]) && all_readable::<T>(
            items.take(i),
        ) && message == "Failed to parse item: "@ + T::complaint(items[i])
}

/// The characters of a parameter, if it is there.
pub open spec fn written(text: Option<&str>) -> Option<Seq<char>> {
    match text {
        None => None,
        Some(t) => Some(t@),
    }
}

/// The items of a parameter, if it is there and not blank.
pub open spec fn present_items(text: Option<Seq<char>>) -> Option<Seq<Seq<char>>> {
    match text {
        None => None,
        Some(t) => if trim(t).len() == 0 {
            None
        } else {
            Some(comma_separated(t))
        },
    }
}

/// Reads a comma-separated parameter as a list of values. A parameter that
/// is absent or blank gives no list; an item that names no value fails the
/// whole parameter, with a message about the first such item.
pub fn deserialize_comma_separated<T: FromText>(
    text: Option<&str>,
) -> (r: Result<Option<Vec<T>>, String>)
    ensures
        match present_items(written(text)) {
            None => r == Ok::<Option<Vec<T>>, String>(None),
            Some(items) => match r {
                Ok(None) => false,
                Ok(Some(values)) => read_as(items, values@),
                Err(message) => complains_of_first::<T>(items, message@),
            },
        },
        r is Ok <==> (present_items(written(text)) matches Some(items) ==> all_readable::<T>(
            items,
        )),
{
    let items = match split_comma_separated(text) {
        None => {
            return Ok(None);
        },
        Some(items) => items,
    };
    let ghost wanted = texts_view(items@);
    let mut values: Vec<T> = Vec::new();
    let mut i: usize = 0;
    while i < items.len()
        invariant
            i <= items@.len(),
            wanted == texts_view(items@),
            present_items(written(text)) == Some(wanted),
            read_as(wanted.take(i as int), values@),
            all_readable::<T>(wanted.take(i as int)),
        decreases items@.len() - i,
    {
        match T::from_text(items[i].as_str()) {
            Ok(value) => {
                proof {
                    let more = values@.push(value);
                    assert forall|k: int| 0 <= k && k < i + 1 implies T::reads_as(
                        #[trigger] wanted.take(i + 1)[k],
                        more[k],
                    ) && T::readable(wanted.take(i + 1)[k]) by {
                        if k < i {
                            assert(wanted.take(i as int)[k] == wanted.take(i + 1)[k]);
                        }
                    }
                }
                values.push(value);
            },
            Err(e) => {
                let mut message = "Failed to parse item: ".to_owned();
                message.append(e.as_str());
                proof {
                    assert(!T::readable(wanted[i as int]));
                }
                return Err(message);
            },
        }
        i += 1;
    }
    proof {
        assert(wanted.take(i as int) =~= wanted);
    }
    Ok(Some(values))
}

} // verus!
