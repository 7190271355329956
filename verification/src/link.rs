//! The `Link` response header of cursor-style pagination:
//! `<url>; rel="next", <url>; rel="last"`.
//!
//! An entry is an optional comma, `<`, the URL, `>;`, `rel=`, `"`, the
//! relation name and `"`. Blanks (space, tab, carriage return, line feed) may
//! stand before and after each of these tokens; they belong to none of them.
//! The URL runs to the first `>;` and the name to the first `"`. A header is
//! one entry or more; what follows the last entry that can be read is left
//! alone.

use crate::error::{ClientError, ClientErrorView, ErrorKind};
use crate::text::{
    chars_of, lines_view, show_bytes, show_lines, shown, shown_lines, text_of_bytes, text_view,
    text_view_ref, utf8_text,
};
use crate::uri::{target_of, uri_parsed, RequestTarget, RequestTargetView};
use core::str::FromStr;
use vstd::prelude::*;
use vstd::string::StrSliceExecFns;
use vstd::string::StringExecFns;

verus! {

/// One entry of the header: a relation name and the URL it is given to.
pub struct LinkEntry {
    pub relation: Seq<char>,
    pub url: Seq<char>,
}

/// Whether `c` is one of the blanks that may surround a token.
pub open spec fn is_blank(c: char) -> bool {
    c == ' ' || c == '\t' || c == '\r' || c == '\n'
}

/// The first index at or after `from` that holds no blank: the length of `s`
/// if blanks run to its end.
pub open spec fn skip_blanks(s: Seq<char>, from: int) -> int
    decreases s.len() - from,
{
    if 0 <= from < s.len() && is_blank(s[from]) {
        skip_blanks(s, from + 1)
    } else {
        from
    }
}

/// Whether `word` stands in `s` at index `at`.
pub open spec fn stands_at(s: Seq<char>, at: int, word: Seq<char>) -> bool {
    0 <= at && at + word.len() <= s.len() && s.subrange(at, at + word.len()) == word
}

/// The first index at or after `from` at which `word` stands in `s`.
pub open spec fn find_word(s: Seq<char>, from: int, word: Seq<char>) -> Option<int>
    decreases s.len() - from + 1,
{
    if from < 0 || from + word.len() > s.len() {
        None
    } else if stands_at(s, from, word) {
        Some(from)
    } else {
        find_word(s, from + 1, word)
    }
}

/// The token that ends the URL of an entry.
pub open spec fn url_close() -> Seq<char> {
    seq!['>', ';']
}

/// The token that announces the relation name of an entry.
pub open spec fn relation_key() -> Seq<char> {
    seq!['r', 'e', 'l', '=']
}

/// The token that opens and ends the relation name of an entry.
pub open spec fn quote() -> Seq<char> {
    seq!['"']
}

/// The index after the last character of `s` between `from` and `to` that is
/// no blank: `from` if there is none.
pub open spec fn trim_back(s: Seq<char>, from: int, to: int) -> int
    decreases to - from,
{
    if from < to <= s.len() && is_blank(s[to - 1]) {
        trim_back(s, from, to - 1)
    } else {
        to
    }
}

/// The index after the optional comma that may begin an entry at `from`.
pub open spec fn after_comma(s: Seq<char>, from: int) -> int {
    if stands_at(s, from, seq![',']) {
        from + 1
    } else {
        from
    }
}

/// The entry that begins at `start`, and the index at which the next one
/// may begin; `None` where no entry can be read at `start`.
pub open spec fn entry_at(s: Seq<char>, start: int) -> Option<(LinkEntry, int)> {
    let open = skip_blanks(s, after_comma(s, skip_blanks(s, start)));
    if !stands_at(s, open, seq!['<']) {
        None
    } else {
        let url_start = skip_blanks(s, open + 1);
        match find_word(s, url_start, url_close()) {
            None => None,
            Some(url_close_at) => {
                let key = skip_blanks(s, url_close_at + 2);
                let name_open = skip_blanks(s, key + 4);
                if !stands_at(s, key, relation_key()) || !stands_at(s, name_open, quote()) {
                    None
                } else {
                    let name_start = skip_blanks(s, name_open + 1);
                    match find_word(s, name_start, quote()) {
                        None => None,
                        Some(name_close_at) => Some(
                            (
                                LinkEntry {
                                    relation: s.subrange(
                                        name_start,
                                        trim_back(s, name_start, name_close_at),
                                    ),
                                    url: s.subrange(
                                        url_start,
                                        trim_back(s, url_start, url_close_at),
                                    ),
                                },
                                skip_blanks(s, name_close_at + 1),
                            ),
                        ),
                    }
                }
            },
        }
    }
}

/// The entries that can be read one after the other from `start` on. An
/// entry ends after the index at which it began (`lemma_entry_advances`), so
/// the reading comes to an end.
pub open spec fn entries_from(s: Seq<char>, start: int) -> Seq<LinkEntry>
    decreases s.len() - start,
{
    match entry_at(s, start) {
        Some((entry, next)) => if start < next <= s.len() {
            seq![entry] + entries_from(s, next)
        } else {
            seq![entry]
        },
        None => Seq::empty(),
    }
}

/// The entries of a header; `None` where not even one can be read.
pub open spec fn header_entries(s: Seq<char>) -> Option<Seq<LinkEntry>> {
    if entry_at(s, 0) is Some {
        Some(entries_from(s, 0))
    } else {
        None
    }
}

/// The URL that `entries` give to the relation `name`: that of the last
/// entry with this name.
pub open spec fn lookup(entries: Seq<LinkEntry>, name: Seq<char>) -> Option<Seq<char>>
    decreases entries.len(),
{
    if entries.len() == 0 {
        None
    } else if entries.last().relation == name {
        Some(entries.last().url)
    } else {
        lookup(entries.drop_last(), name)
    }
}

/// The mapping from relation name to URL that `entries` make.
pub open spec fn relations_of(entries: Seq<LinkEntry>) -> Map<Seq<char>, Seq<char>> {
    Map::new(
        |name: Seq<char>| lookup(entries, name) is Some,
        |name: Seq<char>| lookup(entries, name)->0,
    )
}

/// `skip_blanks` never goes back and never leaves the string.
pub proof fn lemma_skip_blanks_bounds(s: Seq<char>, from: int)
    requires
        0 <= from <= s.len(),
    ensures
        from <= skip_blanks(s, from) <= s.len(),
    decreases s.len() - from,
{
    if from < s.len() && is_blank(s[from]) {
        lemma_skip_blanks_bounds(s, from + 1);
    }
}

/// Where `find_word` finds the word, it stands there, at or after `from`.
pub proof fn lemma_find_word_bounds(s: Seq<char>, from: int, word: Seq<char>)
    requires
        0 <= from,
    ensures
        find_word(s, from, word) matches Some(at) ==> from <= at && at + word.len() <= s.len()
            && stands_at(s, at, word),
    decreases s.len() - from + 1,
{
    if from + word.len() <= s.len() && !stands_at(s, from, word) {
        lemma_find_word_bounds(s, from + 1, word);
    }
}

/// An entry read at `start` ends after `start`, inside the string.
pub proof fn lemma_entry_advances(s: Seq<char>, start: int)
    requires
        0 <= start <= s.len(),
    ensures
        entry_at(s, start) matches Some((_, next)) ==> start < next <= s.len(),
{
    lemma_skip_blanks_bounds(s, start);
    let a = skip_blanks(s, start);
    let b = after_comma(s, a);
    lemma_skip_blanks_bounds(s, b);
    let open = skip_blanks(s, b);
    if stands_at(s, open, seq!['<']) {
        lemma_skip_blanks_bounds(s, open + 1);
        let url_start = skip_blanks(s, open + 1);
        lemma_find_word_bounds(s, url_start, url_close());
        if let Some(url_close_at) = find_word(s, url_start, url_close()) {
            lemma_skip_blanks_bounds(s, url_close_at + 2);
            let key = skip_blanks(s, url_close_at + 2);
            if stands_at(s, key, relation_key()) {
                lemma_skip_blanks_bounds(s, key + 4);
                let name_open = skip_blanks(s, key + 4);
                if stands_at(s, name_open, quote()) {
                    lemma_skip_blanks_bounds(s, name_open + 1);
                    let name_start = skip_blanks(s, name_open + 1);
                    lemma_find_word_bounds(s, name_start, quote());
                    if let Some(name_close_at) = find_word(s, name_start, quote()) {
                        lemma_skip_blanks_bounds(s, name_close_at + 1);
                    }
                }
            }
        }
    }
}

/// Whether `c` is one of the blanks that may surround a token.
fn is_blank_char(c: char) -> (b: bool)
    ensures
        b == is_blank(c),
{
    c == ' ' || c == '\t' || c == '\r' || c == '\n'
}

/// The first index at or after `from` that holds no blank.
fn skip_blanks_in(chars: &Vec<char>, from: usize) -> (to: usize)
    requires
        from <= chars.len(),
    ensures
        to == skip_blanks(chars@, from as int),
        from <= to <= chars.len(),
{
    let mut i: usize = from;
    while i < chars.len() && is_blank_char(chars[i])
        invariant
            from <= i <= chars.len(),
            skip_blanks(chars@, from as int) == skip_blanks(chars@, i as int),
        decreases chars.len() - i,
    {
        i += 1;
    }
    i
}

/// The index after the last character between `from` and `to` that is no
/// blank.
fn trim_back_in(chars: &Vec<char>, from: usize, to: usize) -> (end: usize)
    requires
        from <= to <= chars.len(),
    ensures
        end == trim_back(chars@, from as int, to as int),
        from <= end <= to,
{
    let mut i: usize = to;
    while i > from && is_blank_char(chars[i - 1])
        invariant
            from <= i <= to,
            to <= chars.len(),
            trim_back(chars@, from as int, to as int) == trim_back(chars@, from as int, i as int),
        decreases i,
    {
        i -= 1;
    }
    i
}

/// Whether `word` stands in `chars` at index `at`.
fn word_at(chars: &Vec<char>, at: usize, word: &Vec<char>) -> (b: bool)
    ensures
        b == stands_at(chars@, at as int, word@),
{
    if word.len() > chars.len() || at > chars.len() - word.len() {
        return false;
    }
    let mut k: usize = 0;
    while k < word.len()
        invariant
            k <= word.len(),
            at + word.len() <= chars.len(),
            forall|j: int| 0 <= j < k ==> chars@[at + j] == word@[j],
        decreases word.len() - k,
    {
        if chars[at + k] != word[k] {
            proof {
                let part = chars@.subrange(at as int, at + word.len());
                assert(part[k as int] == chars@[at + k]);
            }
            return false;
        }
        k += 1;
    }
    proof {
        assert(chars@.subrange(at as int, at + word.len()) =~= word@);
    }
    true
}

/// The first index at or after `from` at which `word` stands in `chars`.
fn find_word_in(chars: &Vec<char>, from: usize, word: &Vec<char>) -> (found: Option<usize>)
    requires
        word.len() > 0,
    ensures
        match found {
            Some(at) => find_word(chars@, from as int, word@) == Some(at as int),
            None => find_word(chars@, from as int, word@) is None,
        },
{
    if word.len() > chars.len() {
        return None;
    }
    let last: usize = chars.len() - word.len();
    let mut i: usize = from;
    while i <= last
        invariant
            from <= i,
            word.len() > 0,
            last == chars.len() - word.len(),
            find_word(chars@, from as int, word@) == find_word(chars@, i as int, word@),
        decreases last + 1 - i,
    {
        if word_at(chars, i, word) {
            return Some(i);
        }
        i += 1;
    }
    None
}

/// Where the parts of one entry stand in the header.
struct EntrySpan {
    url_start: usize,
    url_end: usize,
    name_start: usize,
    name_end: usize,
    next: usize,
}

/// Reads the entry that begins at `start`.
fn entry_in(chars: &Vec<char>, start: usize) -> (found: Option<EntrySpan>)
    requires
        start <= chars.len(),
    ensures
        match found {
            Some(span) => {
                &&& span.url_start <= span.url_end <= chars.len()
                &&& span.name_start <= span.name_end <= chars.len()
                &&& start < span.next <= chars.len()
                &&& entry_at(chars@, start as int) == Some(
                    (
                        LinkEntry {
                            relation: chars@.subrange(
                                span.name_start as int,
                                span.name_end as int,
                            ),
                            url: chars@.subrange(span.url_start as int, span.url_end as int),
                        },
                        span.next as int,
                    ),
                )
            },
            None => entry_at(chars@, start as int) is None,
        },
{
    proof {
        lemma_entry_advances(chars@, start as int);
    }
    let first: usize = skip_blanks_in(chars, start);
    let comma: Vec<char> = vec![','];
    assert(comma@ =~= seq![',']);
    let past_comma: usize = if word_at(chars, first, &comma) {
        first + 1
    } else {
        first
    };
    let open: usize = skip_blanks_in(chars, past_comma);
    let bracket: Vec<char> = vec!['<'];
    assert(bracket@ =~= seq!['<']);
    if !word_at(chars, open, &bracket) {
        return None;
    }
    let url_start: usize = skip_blanks_in(chars, open + 1);
    let close: Vec<char> = vec!['>', ';'];
    proof {
        assert(close@ =~= url_close());
        lemma_find_word_bounds(chars@, url_start as int, close@);
    }
    let url_close_at: usize = match find_word_in(chars, url_start, &close) {
        Some(at) => at,
        None => {
            return None;
        },
    };
    let key: usize = skip_blanks_in(chars, url_close_at + 2);
    let key_word: Vec<char> = vec!['r', 'e', 'l', '='];
    assert(key_word@ =~= relation_key());
    if !word_at(chars, key, &key_word) {
        return None;
    }
    let name_open: usize = skip_blanks_in(chars, key + 4);
    let quote_word: Vec<char> = vec!['"'];
    assert(quote_word@ =~= quote());
    if !word_at(chars, name_open, &quote_word) {
        return None;
    }
    let name_start: usize = skip_blanks_in(chars, name_open + 1);
    proof {
        lemma_find_word_bounds(chars@, name_start as int, quote_word@);
    }
    let name_close_at: usize = match find_word_in(chars, name_start, &quote_word) {
        Some(at) => at,
        None => {
            return None;
        },
    };
    let url_end: usize = trim_back_in(chars, url_start, url_close_at);
    let name_end: usize = trim_back_in(chars, name_start, name_close_at);
    let next: usize = skip_blanks_in(chars, name_close_at + 1);
    Some(EntrySpan { url_start, url_end, name_start, name_end, next })
}

/// One entry as it was read: a relation name and its URL.
#[derive(Debug, PartialEq, Eq)]
struct Relation {
    name: String,
    url: String,
}

/// The entries of a `Link` header, in the order in which they stand there.
#[derive(Debug, PartialEq, Eq)]
pub struct LinkRelations {
    entries: Vec<Relation>,
}

/// Entries as contracts see them.
spec fn entries_view(entries: Seq<Relation>) -> Seq<LinkEntry> {
    Seq::new(entries.len(), |i: int| LinkEntry { relation: entries[i].name@, url: entries[i].url@ })
}

impl View for LinkRelations {
    type V = Map<Seq<char>, Seq<char>>;

    /// The mapping from relation name to URL: the last entry of a name
    /// decides.
    open spec fn view(&self) -> Map<Seq<char>, Seq<char>> {
        relations_of(self.entries())
    }
}

/// The text of the error for a header in which no entry can be read: the
/// header is attached.
pub open spec fn malformed_header_text(header: Seq<char>) -> Seq<char> {
    "malformed Link header: "@ + header
}

impl LinkRelations {
    /// The entries, in the order of the header.
    pub closed spec fn entries(&self) -> Seq<LinkEntry> {
        entries_view(self.entries@)
    }

    /// The URL of the relation `name`, if the header gives one.
    pub fn get(&self, name: &str) -> (found: Option<&String>)
        ensures
            match found {
                Some(url) => self@.contains_key(name@) && self@[name@] == url@,
                None => !self@.contains_key(name@),
            },
    {
        let wanted: String = name.to_owned();
        let ghost all = entries_view(self.entries@);
        let mut i: usize = self.entries.len();
        assert(all.take(i as int) =~= all);
        while i > 0
            invariant
                i <= self.entries.len(),
                all == entries_view(self.entries@),
                wanted@ == name@,
                lookup(all, name@) == lookup(all.take(i as int), name@),
            decreases i,
        {
            i -= 1;
            assert(all.take(i + 1).drop_last() =~= all.take(i as int));
            if self.entries[i].name == wanted {
                return Some(&self.entries[i].url);
            }
        }
        None
    }
}

/// Reads a `Link` header. The header must begin with an entry; the entries
/// that follow it are read as far as they go. A header without a first entry
/// is refused with a parse error that carries the header.
pub fn parse_link_header(header: &str) -> (r: Result<LinkRelations, ClientError>)
    ensures
        match r {
            Ok(relations) => header_entries(header@) == Some(relations.entries()),
            Err(e) => header_entries(header@) is None && e@ == (ClientErrorView {
                kind: ErrorKind::Parse,
                message: malformed_header_text(header@),
            }),
        },
{
    let chars: Vec<char> = chars_of(header);
    let mut entries: Vec<Relation> = Vec::new();
    let mut at: usize = 0;
    assert(entries_view(entries@) + entries_from(chars@, 0) =~= entries_from(chars@, 0));
    loop
        invariant
            chars@ == header@,
            at <= chars.len(),
            entries.len() == 0 <==> at == 0,
            entries_view(entries@) + entries_from(chars@, at as int) == entries_from(chars@, 0),
        ensures
            entry_at(chars@, at as int) is None,
        decreases chars.len() - at,
    {
        match entry_in(&chars, at) {
            None => {
                break ;
            },
            Some(span) => {
                let ghost before = entries_view(entries@);
                let name: String = header.substring_char(span.name_start, span.name_end).to_owned();
                let url: String = header.substring_char(span.url_start, span.url_end).to_owned();
                entries.push(Relation { name, url });
                proof {
                    let entry = LinkEntry {
                        relation: chars@.subrange(span.name_start as int, span.name_end as int),
                        url: chars@.subrange(span.url_start as int, span.url_end as int),
                    };
                    assert(entries_view(entries@) =~= before.push(entry));
                    if span.next < chars.len() {
                        assert(before + (seq![entry] + entries_from(chars@, span.next as int))
                            =~= before.push(entry) + entries_from(chars@, span.next as int));
                    } else {
                        lemma_no_entry_at_end(chars@);
                        assert(before + seq![entry] =~= before.push(entry) + entries_from(
                            chars@,
                            span.next as int,
                        ));
                    }
                }
                at = span.next;
            },
        }
    }
    if entries.len() == 0 {
        let mut message: String = "malformed Link header: ".to_owned();
        message.append(header);
        return Err(ClientError::with_text(ErrorKind::Parse, message));
    }
    proof {
        assert(entries_from(chars@, at as int) =~= Seq::<LinkEntry>::empty());
        assert(entries_view(entries@) + Seq::<LinkEntry>::empty() =~= entries_view(entries@));
    }
    Ok(LinkRelations { entries })
}

/// A header that is read holds at least one entry.
pub proof fn lemma_at_least_one_entry(header: Seq<char>)
    ensures
        header_entries(header) matches Some(entries) ==> entries.len() >= 1,
{
}

/// Of two entries with one relation name, the later one decides.
pub proof fn lemma_last_entry_wins(entries: Seq<LinkEntry>, later: LinkEntry)
    ensures
        lookup(entries.push(later), later.relation) == Some(later.url),
        forall|name: Seq<char>|
            name != later.relation ==> #[trigger] lookup(entries.push(later), name) == lookup(
                entries,
                name,
            ),
{
    assert(entries.push(later).drop_last() =~= entries);
}

/// An entry whose relation is none of `prev`, `next`, `first` and `last`
/// leaves the `Link` as it is.
pub proof fn lemma_unknown_relation_ignored(entries: Seq<LinkEntry>, other: LinkEntry)
    requires
        other.relation != "prev"@,
        other.relation != "next"@,
        other.relation != "first"@,
        other.relation != "last"@,
    ensures
        link_of(entries.push(other)) == link_of(entries),
{
    lemma_last_entry_wins(entries, other);
}

/// A header has one reading: two results of reading the same header hold the
/// same entries and make the same mapping.
pub proof fn lemma_one_reading(header: Seq<char>, first: LinkRelations, second: LinkRelations)
    requires
        header_entries(header) == Some(first.entries()),
        header_entries(header) == Some(second.entries()),
    ensures
        first.entries() == second.entries(),
        first@ == second@,
{
}

/// The pagination header of a response: the URLs of the neighbouring pages,
/// as far as the header names them.
#[derive(Debug, PartialEq, Eq)]
pub struct Link {
    previous: Option<String>,
    next: Option<String>,
    first: Option<String>,
    last: Option<String>,
}

/// A `Link` as contracts see it.
pub struct LinkView {
    pub previous: Option<Seq<char>>,
    pub next: Option<Seq<char>>,
    pub first: Option<Seq<char>>,
    pub last: Option<Seq<char>>,
}

/// The `Link` that `entries` make: the relations `prev`, `next`, `first` and
/// `last`; every other relation is left out.
pub open spec fn link_of(entries: Seq<LinkEntry>) -> LinkView {
    LinkView {
        previous: lookup(entries, "prev"@),
        next: lookup(entries, "next"@),
        first: lookup(entries, "first"@),
        last: lookup(entries, "last"@),
    }
}

/// The `Link` that the lines of a `Link` header make: there must be one line
/// only, it must be UTF-8, and it must begin with an entry.
pub open spec fn link_of_lines(lines: Seq<Seq<u8>>) -> Option<LinkView> {
    if lines.len() != 1 {
        None
    } else {
        match utf8_text(lines[0]) {
            None => None,
            Some(header) => match header_entries(header) {
                None => None,
                Some(entries) => Some(link_of(entries)),
            },
        }
    }
}

/// The words of the error for a header that came in no line or in several;
/// the lines follow them.
pub open spec fn line_count_text() -> Seq<char> {
    "Link header must have exactly one line"@
}

/// The words of the error for a header that is not UTF-8; the bytes of the
/// header follow them.
pub open spec fn not_utf8_header_text() -> Seq<char> {
    "Link header is not valid UTF-8"@
}

/// The text of the error that `Link::parse_header` gives for `lines`. It
/// carries what was refused: every line where there is not exactly one, the
/// bytes of a line that is not UTF-8, the text of a line without an entry.
pub open spec fn link_error_text(lines: Seq<Seq<u8>>) -> Seq<char> {
    if lines.len() != 1 {
        line_count_text() + shown_lines(lines)
    } else {
        match utf8_text(lines[0]) {
            None => not_utf8_header_text() + "; "@ + shown(lines[0]),
            Some(header) => malformed_header_text(header),
        }
    }
}

/// An owned copy of an optional string.
fn owned(text: Option<&String>) -> (copy: Option<String>)
    ensures
        match copy {
            Some(s) => text matches Some(t) && s@ == t@,
            None => text is None,
        },
{
    match text {
        Some(t) => Some(t.clone()),
        None => None,
    }
}

impl View for Link {
    type V = LinkView;

    closed spec fn view(&self) -> LinkView {
        LinkView {
            previous: text_view(self.previous),
            next: text_view(self.next),
            first: text_view(self.first),
            last: text_view(self.last),
        }
    }
}

impl Clone for Link {
    fn clone(&self) -> (copy: Link)
        ensures
            copy@ == self@,
    {
        Link {
            previous: owned(self.previous.as_ref()),
            next: owned(self.next.as_ref()),
            first: owned(self.first.as_ref()),
            last: owned(self.last.as_ref()),
        }
    }
}

impl Link {
    /// The name of the header.
    pub fn header_name() -> (name: &'static str)
        ensures
            name@ == "Link"@,
    {
        "Link"
    }

    /// The `Link` that the relations of a header make.
    pub fn from_relations(relations: &LinkRelations) -> (link: Link)
        ensures
            link@ == link_of(relations.entries()),
    {
        Link {
            previous: owned(relations.get("prev")),
            next: owned(relations.get("next")),
            first: owned(relations.get("first")),
            last: owned(relations.get("last")),
        }
    }

    /// Reads the header from its raw lines. A header in several lines, one
    /// that is not UTF-8 and one that begins with no entry are refused.
    pub fn parse_header(lines: &Vec<Vec<u8>>) -> (r: Result<Link, ClientError>)
        ensures
            match r {
                Ok(link) => link_of_lines(lines_view(lines@)) == Some(link@),
                Err(e) => link_of_lines(lines_view(lines@)) is None && e@ == (ClientErrorView {
                    kind: ErrorKind::Parse,
                    message: link_error_text(lines_view(lines@)),
                }),
            },
    {
        if lines.len() != 1 {
            let mut message: String = "Link header must have exactly one line".to_owned();
            let listed: String = show_lines(lines);
            message.append(listed.as_str());
            return Err(ClientError::with_text(ErrorKind::Parse, message));
        }
        let header: &str = match text_of_bytes(lines[0].as_slice()) {
            Some(text) => text,
            None => {
                let mut message: String = "Link header is not valid UTF-8".to_owned();
                let bytes: String = show_bytes(lines[0].as_slice());
                message.append("; ");
                message.append(bytes.as_str());
                return Err(ClientError::with_text(ErrorKind::Parse, message));
            },
        };
        match parse_link_header(header) {
            Ok(relations) => Ok(Link::from_relations(&relations)),
            Err(e) => Err(e),
        }
    }

    /// The URL of the previous page.
    pub fn previous(&self) -> (url: Option<&String>)
        ensures
            text_view_ref(url) == self@.previous,
    {
        self.previous.as_ref()
    }

    /// The URL of the next page.
    pub fn next(&self) -> (url: Option<&String>)
        ensures
            text_view_ref(url) == self@.next,
    {
        self.next.as_ref()
    }

    /// The URL of the first page.
    pub fn first(&self) -> (url: Option<&String>)
        ensures
            text_view_ref(url) == self@.first,
    {
        self.first.as_ref()
    }

    /// The URL of the last page.
    pub fn last(&self) -> (url: Option<&String>)
        ensures
            text_view_ref(url) == self@.last,
    {
        self.last.as_ref()
    }
}

/// The target of the next page that a `Link` names: none where it names no
/// next page, and none where `hyper` refuses the URL.
pub open spec fn next_target(link: Option<LinkView>) -> Option<RequestTargetView> {
    match link {
        Some(l) => match l.next {
            Some(url) => match uri_parsed(url) {
                Ok(uri) => Some(target_of(uri)),
                Err(_) => None,
            },
            None => None,
        },
        None => None,
    }
}

/// What a response says of the page that follows it.
pub trait HasNextLink {
    /// The pagination header, if there is one.
    spec fn link(&self) -> Option<LinkView>;

    /// Whether the header names a next page.
    fn has_next(&self) -> (b: bool)
        ensures
            b == (self.link() matches Some(l) && l.next is Some),
    ;

    /// The target of the next page.
    fn next(&self) -> (target: Option<RequestTarget>)
        ensures
            target_view(target) == next_target(self.link()),
    ;
}

/// An optional target as contracts see it.
pub open spec fn target_view(target: Option<RequestTarget>) -> Option<RequestTargetView> {
    match target {
        Some(t) => Some(t@),
        None => None,
    }
}

impl<'a> HasNextLink for Option<&'a Link> {
    open spec fn link(&self) -> Option<LinkView> {
        match self {
            Some(l) => Some(l@),
            None => None,
        }
    }

    fn has_next(&self) -> (b: bool) {
        match *self {
            Some(l) => l.next.is_some(),
            None => false,
        }
    }

    fn next(&self) -> (target: Option<RequestTarget>) {
        match *self {
            Some(l) => {
                assert(l@.next == text_view(l.next));
                match &l.next {
                    Some(url) => match hyper::Uri::from_str(url.as_str()) {
                        Ok(uri) => {
                            let target = RequestTarget::from_uri(uri);
                            assert(next_target(self.link()) == Some(target_of(uri)));
                            Some(target)
                        },
                        Err(_) => None,
                    },
                    None => None,
                }
            },
            None => None,
        }
    }
}

/// No entry begins at the end of the string.
proof fn lemma_no_entry_at_end(s: Seq<char>)
    ensures
        entry_at(s, s.len() as int) is None,
        entries_from(s, s.len() as int) == Seq::<LinkEntry>::empty(),
{
    lemma_skip_blanks_bounds(s, s.len() as int);
    let first = skip_blanks(s, s.len() as int);
    lemma_skip_blanks_bounds(s, after_comma(s, first));
}

} // verus!
