//! Comment threads: the wire text of a thread, the entry of one comment,
//! and the lookup of an existing thread among stored records.
use vstd::prelude::*;

use crate::text::{decimal, texts, u64_text};
use crate::types::{FinalComment, FinalMetadata, Metadata};

verus! {

/// Lower-case hex digit of a value below sixteen.
pub open spec fn hex_digit_lower(d: nat) -> char {
    if d < 10 {
        ((d + 48) as u8) as char
    } else {
        ((d + 87) as u8) as char
    }
}

/// How one character stands inside a JSON string literal: the quote, the
/// backslash and control characters are escaped, all else stands as itself.
pub open spec fn json_char_escape(c: char) -> Seq<char> {
    let v = c as u32;
    if c == '"' {
        seq!['\\', '"']
    } else if c == '\\' {
        seq!['\\', '\\']
    } else if v == 8 {
        seq!['\\', 'b']
    } else if v == 9 {
        seq!['\\', 't']
    } else if v == 10 {
        seq!['\\', 'n']
    } else if v == 12 {
        seq!['\\', 'f']
    } else if v == 13 {
        seq!['\\', 'r']
    } else if v < 32 {
        seq!['\\', 'u', '0', '0', hex_digit_lower((v / 16) as nat), hex_digit_lower((v % 16) as nat)]
    } else {
        seq![c]
    }
}

/// The escaped characters of a text, in order.
pub open spec fn json_escaped(s: Seq<char>) -> Seq<char>
    decreases s.len(),
{
    if s.len() == 0 {
        Seq::empty()
    } else {
        json_escaped(s.drop_last()) + json_char_escape(s.last())
    }
}

/// JSON string literal for a text: quoted, with its characters escaped.
pub open spec fn json_quoted(s: Seq<char>) -> Seq<char> {
    seq!['"'] + json_escaped(s) + seq!['"']
}

/// Relies on serde_json::to_string on a `str`, which writes into memory and
/// cannot fail: the JSON string literal of the text.
#[verifier::external_body]
fn json_string(s: &str) -> (r: String)
    ensures
        r@ == json_quoted(s@),
{
    serde_json::to_string(s).unwrap_or_default()
}

/// Alias that marks a record as a comment thread.
pub open spec fn thread_alias() -> Seq<char> {
    "comments"@
}

/// The entries of a thread, separated by commas.
pub open spec fn joined(entries: Seq<Seq<char>>) -> Seq<char>
    decreases entries.len(),
{
    if entries.len() == 0 {
        Seq::empty()
    } else if entries.len() == 1 {
        entries[0]
    } else {
        joined(entries.drop_last()) + ","@ + entries.last()
    }
}

/// Wire text of a thread: a JSON array of its entries, in order.
pub open spec fn thread_text(entries: Seq<Seq<char>>) -> Seq<char> {
    "["@ + joined(entries) + "]"@
}

/// JSON object of a comment, from the literals of its author and message.
pub open spec fn comment_json(from_lit: Seq<char>, message_lit: Seq<char>, timestamp: u64) -> Seq<char> {
    "{\"from\":"@ + from_lit + ",\"message\":"@ + message_lit + ",\"timestamp\":"@ + decimal(
        timestamp as nat,
    ) + "}"@
}

/// The thread entry of a comment.
pub open spec fn entry_of(c: FinalComment) -> Seq<char> {
    comment_json(json_quoted(c.from@), json_quoted(c.message@), c.timestamp)
}

/// Some stored record is the thread of `parent`: its content identifier is
/// `parent`, and, when `by_alias`, it is marked as a thread.
pub open spec fn has_thread(metas: Seq<Metadata>, parent: Seq<char>, by_alias: bool) -> bool {
    exists|i: int|
        0 <= i < metas.len() && (#[trigger] metas[i]).cid@ == parent && (by_alias ==> metas[i].alias@
            == thread_alias())
}

/// Relies on SystemTime::now measured from UNIX_EPOCH: the wall clock in
/// milliseconds, or zero for a clock set before the epoch.
#[verifier::external_body]
fn now_millis() -> (r: u64) {
    std::time::SystemTime::now().duration_since(std::time::UNIX_EPOCH).map(|d| d.as_millis() as u64).unwrap_or(0)
}

impl FinalComment {
    /// A comment stamped with the current wall-clock time.
    pub fn new(from: String, message: String) -> (r: FinalComment)
        ensures
            r.from == from,
            r.message == message,
    {
        FinalComment { from, message, timestamp: now_millis() }
    }

    /// A comment stamped with a given time, for replayable results.
    pub fn at(from: String, message: String, timestamp: u64) -> (r: FinalComment)
        ensures
            r.from == from,
            r.message == message,
            r.timestamp == timestamp,
    {
        FinalComment { from, message, timestamp }
    }
}

/// The JSON object of a comment, from the literals of its author and message.
pub fn comment_json_from(from_lit: &str, message_lit: &str, timestamp: u64) -> (r: String)
    ensures
        r@ == comment_json(from_lit@, message_lit@, timestamp),
{
    let mut s = String::from_str("{\"from\":");
    s.append(from_lit);
    s.append(",\"message\":");
    s.append(message_lit);
    s.append(",\"timestamp\":");
    s.append(u64_text(timestamp).as_str());
    s.append("}");
    s
}

/// The thread entry of a comment.
pub fn comment_entry(c: &FinalComment) -> (r: String)
    ensures
        r@ == entry_of(*c),
{
    let from_lit = json_string(c.from.as_str());
    let message_lit = json_string(c.message.as_str());
    comment_json_from(from_lit.as_str(), message_lit.as_str(), c.timestamp)
}

/// The wire text of a thread.
pub fn serialize_thread(entries: &Vec<String>) -> (r: String)
    ensures
        r@ == thread_text(texts(entries@)),
{
    let mut s = String::from_str("[");
    let mut i: usize = 0;
    while i < entries.len()
        invariant
            i <= entries.len(),
            s@ == "["@ + joined(texts(entries@).subrange(0, i as int)),
        decreases entries.len() - i,
    {
        let ghost prev = texts(entries@).subrange(0, i as int);
        let ghost next = texts(entries@).subrange(0, i as int + 1);
        assert(next.drop_last() =~= prev);
        if i > 0 {
            s.append(",");
        } else {
            assert(prev =~= Seq::<Seq<char>>::empty());
        }
        s.append(entries[i].as_str());
        assert(s@ =~= "["@ + joined(next));
        i = i + 1;
    }
    assert(texts(entries@).subrange(0, i as int) =~= texts(entries@));
    s.append("]");
    s
}

/// Whether the stored records hold the thread of `parent`.
pub fn find_thread(metadatas: &Vec<Metadata>, parent: &String, by_alias: bool) -> (r: bool)
    ensures
        r == has_thread(metadatas@, parent@, by_alias),
{
    let alias = String::from_str("comments");
    let mut i: usize = 0;
    while i < metadatas.len()
        invariant
            i <= metadatas.len(),
            alias@ == thread_alias(),
            forall|j: int|
                0 <= j < i ==> !((#[trigger] metadatas@[j]).cid@ == parent@ && (by_alias
                    ==> metadatas@[j].alias@ == thread_alias())),
        decreases metadatas.len() - i,
    {
        let m = &metadatas[i];
        if m.cid == *parent && (!by_alias || m.alias == alias) {
            assert(metadatas@[i as int].cid@ == parent@);
            return true;
        }
        i = i + 1;
    }
    false
}

/// Appends the entry of `comment` to a thread's entries.
pub fn append_comment(entries: Vec<String>, comment: &FinalComment) -> (r: Vec<String>)
    ensures
        texts(r@) == texts(entries@).push(entry_of(*comment)),
{
    let entry = comment_entry(comment);
    let mut all = entries;
    let ghost before = texts(all@);
    all.push(entry);
    assert(texts(all@) =~= before.push(entry_of(*comment)));
    all
}

/// The record that republishes a thread.
pub fn thread_record(owner: String, version: String, loose: i64, entries: &Vec<String>) -> (r: FinalMetadata)
    ensures
        r.public_key == owner,
        r.alias@ == thread_alias(),
        r.content@ == thread_text(texts(entries@)),
        r.version == version,
        r.loose == loose,
{
    FinalMetadata {
        public_key: owner,
        alias: String::from_str("comments"),
        content: serialize_thread(entries),
        loose,
        version,
    }
}

/// Appending is additive: the new thread text is the old one with its
/// closing bracket replaced by a separator, the new entry and the bracket,
/// so every earlier entry stays as it was, in place.
pub proof fn lemma_append_keeps_prefix(entries: Seq<Seq<char>>, entry: Seq<char>)
    ensures
        entries.push(entry).len() == entries.len() + 1,
        entries.push(entry).subrange(0, entries.len() as int) == entries,
        entries.push(entry).last() == entry,
        thread_text(entries.push(entry)) == thread_text(entries).drop_last() + (if entries.len() == 0 {
            Seq::<char>::empty()
        } else {
            ","@
        }) + entry + "]"@,
{
    reveal_strlit("]");
    let e2 = entries.push(entry);
    assert(e2.drop_last() =~= entries);
    assert(e2.subrange(0, entries.len() as int) =~= entries);
    assert(thread_text(entries).drop_last() =~= "["@ + joined(entries));
    if entries.len() == 0 {
        assert(thread_text(e2) =~= "["@ + entry + "]"@);
        assert(thread_text(entries).drop_last() + Seq::<char>::empty() + entry + "]"@ =~= "["@ + entry + "]"@);
    } else {
        assert(thread_text(e2) =~= "["@ + joined(entries) + ","@ + entry + "]"@);
        assert(thread_text(entries).drop_last() + ","@ + entry + "]"@ =~= "["@ + joined(entries) + ","@ + entry + "]"@);
    }
}

/// Scanner state over a JSON text: bracket depth, inside a string literal,
/// and just after a backslash inside one.
pub open spec fn scan_start() -> (int, bool, bool) {
    (0, false, false)
}

/// The scanner state after one more character.
pub open spec fn scan_step(st: (int, bool, bool), c: char) -> (int, bool, bool) {
    let (depth, in_str, esc) = st;
    if in_str {
        if esc {
            (depth, true, false)
        } else if c == '\\' {
            (depth, true, true)
        } else if c == '"' {
            (depth, false, false)
        } else {
            st
        }
    } else if c == '"' {
        (depth, true, false)
    } else if c == '[' || c == '{' {
        (depth + 1, false, false)
    } else if c == ']' || c == '}' {
        (depth - 1, false, false)
    } else {
        st
    }
}

/// The scanner state after a whole text.
pub open spec fn scan(s: Seq<char>) -> (int, bool, bool)
    decreases s.len(),
{
    if s.len() == 0 {
        scan_start()
    } else {
        scan_step(scan(s.drop_last()), s.last())
    }
}

/// A closed entry: a non-empty text that ends outside any bracket or string
/// and holds no comma at its top level, as the text of every JSON value is.
pub open spec fn is_closed_entry(e: Seq<char>) -> bool {
    &&& e.len() > 0
    &&& scan(e) == scan_start()
    &&& forall|k: int| 0 <= k < e.len() && e[k] == ',' ==> scan(#[trigger] e.take(k)) != scan_start()
}

/// The pieces of `s` between its top-level commas, where `cur` is the piece
/// read so far and `st` the scanner state reached.
pub open spec fn split_from(s: Seq<char>, st: (int, bool, bool), cur: Seq<char>) -> Seq<Seq<char>>
    decreases s.len(),
{
    if s.len() == 0 {
        seq![cur]
    } else if st == scan_start() && s[0] == ',' {
        seq![cur] + split_from(s.drop_first(), scan_start(), Seq::empty())
    } else {
        split_from(s.drop_first(), scan_step(st, s[0]), cur.push(s[0]))
    }
}

/// The entries of a thread text: a bracketed list split at its top-level
/// commas; `None` when the text is not bracketed.
pub open spec fn thread_entries(t: Seq<char>) -> Option<Seq<Seq<char>>> {
    if t.len() >= 2 && t[0] == '[' && t.last() == ']' {
        let inner = t.subrange(1, t.len() - 1);
        if inner.len() == 0 {
            Some(Seq::empty())
        } else {
            Some(split_from(inner, scan_start(), Seq::empty()))
        }
    } else {
        None
    }
}

/// Relies on str::chars: the characters of the text, in order.
#[verifier::external_body]
fn char_vec(s: &str) -> (r: Vec<char>)
    ensures
        r@ == s@,
{
    s.chars().collect()
}

/// Relies on String's FromIterator<char>: the text of the characters.
#[verifier::external_body]
fn string_of(v: &Vec<char>) -> (r: String)
    ensures
        r@ == v@,
{
    v.iter().collect()
}

/// Reads the entries of a thread text, each as its JSON text.
pub fn parse_thread(text: &str) -> (r: Option<Vec<String>>)
    ensures
        match thread_entries(text@) {
            None => r is None,
            Some(es) => r is Some && texts(r->0@) == es,
        },
{
    let chars = char_vec(text);
    let n = chars.len();
    if n < 2 || chars[0] != '[' || chars[n - 1] != ']' {
        return None;
    }
    let ghost inner = chars@.subrange(1, n - 1);
    let mut out: Vec<String> = Vec::new();
    if n == 2 {
        assert(texts(out@) =~= Seq::<Seq<char>>::empty());
        return Some(out);
    }
    let mut cur: Vec<char> = Vec::new();
    let mut depth: i128 = 0;
    let mut in_str = false;
    let mut esc = false;
    let mut i: usize = 1;
    assert(inner.skip(0) =~= inner);
    assert(texts(out@) + split_from(inner, scan_start(), cur@) =~= split_from(inner, scan_start(), cur@));
    assert(cur@ =~= Seq::<char>::empty());
    while i < n - 1
        invariant
            n == chars@.len(),
            n > 2,
            chars@ == text@,
            inner == chars@.subrange(1, n - 1),
            1 <= i <= n - 1,
            -(i as int) <= depth <= i as int,
            split_from(inner, scan_start(), Seq::empty()) == texts(out@) + split_from(
                inner.skip(i - 1),
                (depth as int, in_str, esc),
                cur@,
            ),
        decreases n - 1 - i,
    {
        let c = chars[i];
        let ghost rest = inner.skip(i - 1);
        assert(rest[0] == c);
        assert(rest.drop_first() =~= inner.skip(i as int));
        if !in_str && !esc && depth == 0 && c == ',' {
            let piece = string_of(&cur);
            let ghost before = texts(out@);
            out.push(piece);
            assert(texts(out@) =~= before.push(cur@));
            assert(before + (seq![cur@] + split_from(inner.skip(i as int), scan_start(), Seq::empty())) =~= texts(
                out@,
            ) + split_from(inner.skip(i as int), scan_start(), Seq::empty()));
            cur = Vec::new();
            depth = 0;
            in_str = false;
            esc = false;
        } else {
            if in_str {
                if esc {
                    esc = false;
                } else if c == '\\' {
                    esc = true;
                } else if c == '"' {
                    in_str = false;
                }
            } else if c == '"' {
                in_str = true;
                esc = false;
            } else if c == '[' || c == '{' {
                depth = depth + 1;
                esc = false;
            } else if c == ']' || c == '}' {
                depth = depth - 1;
                esc = false;
            }
            cur.push(c);
        }
        i = i + 1;
    }
    let piece = string_of(&cur);
    let ghost before = texts(out@);
    out.push(piece);
    assert(inner.skip(n - 2) =~= Seq::<char>::empty());
    assert(texts(out@) =~= before.push(cur@));
    assert(before + seq![cur@] =~= texts(out@));
    Some(out)
}

/// Reading through a closed entry from the start state never splits it: the
/// whole entry joins the current piece and the scanner is back at the start.
proof fn lemma_entry_passes(e: Seq<char>, k: int, rest: Seq<char>, c: Seq<char>)
    requires
        is_closed_entry(e),
        0 <= k <= e.len(),
    ensures
        split_from(e.skip(k) + rest, scan(e.take(k)), c + e.take(k)) == split_from(rest, scan_start(), c + e),
    decreases e.len() - k,
{
    if k == e.len() {
        assert(e.skip(k) + rest =~= rest);
        assert(e.take(k) =~= e);
    } else {
        let s = e.skip(k) + rest;
        assert(s[0] == e[k]);
        assert(s.drop_first() =~= e.skip(k + 1) + rest);
        assert(e.take(k + 1).drop_last() =~= e.take(k));
        assert(e.take(k + 1).last() == e[k]);
        assert((c + e.take(k)).push(e[k]) =~= c + e.take(k + 1));
        lemma_entry_passes(e, k + 1, rest, c);
    }
}

/// Splitting joined closed entries, followed by anything, yields every entry
/// but the last, then what splitting the last one, followed by the same, yields.
proof fn lemma_joined_splits(es: Seq<Seq<char>>, rest: Seq<char>)
    requires
        es.len() >= 1,
        forall|i: int| 0 <= i < es.len() ==> is_closed_entry(#[trigger] es[i]),
    ensures
        split_from(joined(es) + rest, scan_start(), Seq::empty()) == es.drop_last() + split_from(
            es.last() + rest,
            scan_start(),
            Seq::empty(),
        ),
    decreases es.len(),
{
    reveal_strlit(",");
    if es.len() == 1 {
        assert(es.drop_last() =~= Seq::<Seq<char>>::empty());
        let z = split_from(es.last() + rest, scan_start(), Seq::empty());
        assert(Seq::<Seq<char>>::empty() + z =~= z);
    } else {
        let p = es.drop_last();
        let last = es.last();
        let rest2 = ","@ + last + rest;
        assert(joined(es) + rest =~= joined(p) + rest2);
        assert(p.last() == es[es.len() - 2]);
        lemma_joined_splits(p, rest2);
        lemma_entry_passes(p.last(), 0, rest2, Seq::empty());
        assert(p.last().skip(0) + rest2 =~= p.last() + rest2);
        assert(p.last().take(0) =~= Seq::<char>::empty());
        assert(Seq::<char>::empty() + Seq::<char>::empty() =~= Seq::<char>::empty());
        assert(Seq::<char>::empty() + p.last() =~= p.last());
        assert(rest2[0] == ',');
        assert(rest2.drop_first() =~= last + rest);
        let z = split_from(last + rest, scan_start(), Seq::empty());
        assert(p.drop_last() + (seq![p.last()] + z) =~= p + z);
    }
}

/// Decoding undoes encoding: reading back the text of a thread whose entries
/// are closed JSON texts yields exactly those entries, in order.
pub proof fn lemma_thread_round_trip(es: Seq<Seq<char>>)
    requires
        forall|i: int| 0 <= i < es.len() ==> is_closed_entry(#[trigger] es[i]),
    ensures
        thread_entries(thread_text(es)) == Some(es),
{
    reveal_strlit("[");
    reveal_strlit("]");
    reveal_strlit(",");
    let t = thread_text(es);
    assert(t.subrange(1, t.len() - 1) =~= joined(es));
    if es.len() == 0 {
        assert(joined(es) =~= Seq::<char>::empty());
    } else {
        if es.len() > 1 {
            assert(joined(es) == joined(es.drop_last()) + ","@ + es.last());
        }
        assert(es.last() == es[es.len() - 1]);
        assert(joined(es).len() > 0);
        lemma_joined_splits(es, Seq::empty());
        assert(joined(es) + Seq::<char>::empty() =~= joined(es));
        assert(es.last() + Seq::<char>::empty() =~= es.last());
        lemma_entry_passes(es.last(), 0, Seq::empty(), Seq::empty());
        assert(es.last().skip(0) =~= es.last());
        assert(es.last().take(0) =~= Seq::<char>::empty());
        assert(Seq::<char>::empty() + Seq::<char>::empty() =~= Seq::<char>::empty());
        assert(Seq::<char>::empty() + es.last() =~= es.last());
        assert(es.drop_last() + seq![es.last()] =~= es);
    }
}

} // verus!
