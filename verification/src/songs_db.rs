use vstd::prelude::*;
use vstd::string::StringExecFns;

use crate::shader::push_char;

verus! {

/// A chart as the song database stores it.
#[derive(Debug, Clone)]
pub struct ChartEntry {
    pub rowid: i64,
    pub folderid: i64,
    pub path: String,
    pub title: String,
    pub artist: String,
    pub title_translit: String,
    pub artist_translit: String,
    pub jacket_path: String,
    pub effector: String,
    pub illustrator: String,
    pub diff_name: String,
    pub diff_shortname: String,
    pub bpm: String,
    pub diff_index: i64,
    pub level: i64,
    pub hash: String,
    pub preview_file: Option<String>,
    pub preview_offset: i64,
    pub preview_length: i64,
    pub lwt: i64,
    pub custom_offset: i64,
}

/// The position of the first space in `s`, or its length when there is none.
pub open spec fn space_pos(s: Seq<char>) -> int
    decreases s.len(),
{
    if s.len() == 0 {
        0
    } else if s[0] == ' ' {
        0
    } else {
        1 + space_pos(s.drop_first())
    }
}

pub proof fn lemma_space_pos(s: Seq<char>)
    ensures
        0 <= space_pos(s) <= s.len(),
        space_pos(s) < s.len() ==> s[space_pos(s)] == ' ',
        forall|k: int| 0 <= k < space_pos(s) ==> s[k] != ' ',
    decreases s.len(),
{
    if s.len() > 0 && s[0] != ' ' {
        lemma_space_pos(s.drop_first());
        assert forall|k: int| 0 <= k < space_pos(s) implies s[k] != ' ' by {
            if k > 0 {
                assert(s[k] == s.drop_first()[k - 1]);
            }
        }
    }
}

/// The words of a search, as `str::split(' ')` gives them: every space ends a word, so
/// two spaces in a row give an empty word.
pub open spec fn split_spaces(s: Seq<char>) -> Seq<Seq<char>>
    decreases s.len(),
{
    let i = space_pos(s);
    proof {
        lemma_space_pos(s);
    }
    if i >= s.len() {
        seq![s]
    } else {
        seq![s.take(i)] + split_spaces(s.skip(i + 1))
    }
}

/// The condition every word of a search adds: the word occurs in one of the chart's
/// texts.
pub open spec fn word_condition() -> Seq<char> {
    " (artist LIKE ?\n\t\t\t\t\t OR title LIKE ?\n\t\t\t\t\t OR path LIKE ?\n\t\t\t\t\t OR effector LIKE ?\n\t\t\t\t\t OR artist_translit LIKE ?\n\t\t\t\t\t OR title_translit LIKE ?)"@
}

/// The query for the folders of all charts.
pub open spec fn base_query() -> Seq<char> {
    "SELECT DISTINCT folderId FROM Charts"@
}

/// The query for the folders of the charts that match every word: one condition per
/// word, the first after `WHERE`, the others after `AND`.
pub open spec fn search_sql(words: Seq<Seq<char>>) -> Seq<char>
    decreases words.len(),
{
    if words.len() == 0 {
        base_query()
    } else {
        search_sql(words.drop_last()) + (if words.len() == 1 {
            " WHERE"@
        } else {
            " AND"@
        }) + word_condition()
    }
}

/// The pattern a word is matched with: the word anywhere in the text.
pub open spec fn like_pattern(word: Seq<char>) -> Seq<char> {
    "%"@ + word + "%"@
}

/// The values bound to the query's placeholders: each word's pattern, once for each of
/// the six texts.
pub open spec fn search_binds(words: Seq<Seq<char>>) -> Seq<Seq<char>>
    decreases words.len(),
{
    if words.len() == 0 {
        seq![]
    } else {
        search_binds(words.drop_last()) + Seq::new(6, |_i: int| like_pattern(words.last()))
    }
}

/// The query for the folders of the charts matching a search, with its bound values:
/// all folders for an empty search.
pub open spec fn folder_query(query: Seq<char>) -> (Seq<char>, Seq<Seq<char>>) {
    if query.len() == 0 {
        (base_query(), seq![])
    } else {
        (search_sql(split_spaces(query)), search_binds(split_spaces(query)))
    }
}

fn string_of(chars: &Vec<char>, from: usize, to: usize) -> (s: String)
    requires
        from <= to <= chars@.len(),
    ensures
        s@ == chars@.subrange(from as int, to as int),
{
    let mut s = String::new();
    let mut k = from;
    while k < to
        invariant
            from <= k <= to <= chars@.len(),
            s@ == chars@.subrange(from as int, k as int),
        decreases to - k,
    {
        push_char(&mut s, chars[k]);
        assert(chars@.subrange(from as int, k + 1) =~= chars@.subrange(from as int, k as int).push(
            chars@[k as int],
        ));
        k = k + 1;
    }
    s
}

/// The query for the folders of the charts that match every word of `query` (split at
/// spaces), and the values for its placeholders.
pub fn get_folder_ids_query(query: &str) -> (r: (String, Vec<String>))
    ensures
        r.0@ == folder_query(query@).0,
        r.1@.map_values(|b: String| b@) == folder_query(query@).1,
{
    let mut chars: Vec<char> = Vec::new();
    broadcast use vstd::string::axiom_spec_iter;
    for c in it: query.chars()
        invariant
            chars@ == it.seq().take(it.index() as int),
            it.seq() == query@,
    {
        chars.push(c);
    }
    let ghost q = chars@;
    assert(q == query@);
    let mut sql = String::from_str("SELECT DISTINCT folderId FROM Charts");
    let mut binds: Vec<String> = Vec::new();
    let n = chars.len();
    if n == 0 {
        assert(binds@.map_values(|b: String| b@) =~= Seq::<Seq<char>>::empty());
        return (sql, binds);
    }
    let ghost done: Seq<Seq<char>> = seq![];
    let mut start: usize = 0;
    let mut more = true;
    let mut first = true;
    assert(q.skip(0) =~= q);
    while more
        invariant
            chars@ == q,
            n == q.len(),
            n > 0,
            start <= n,
            more ==> split_spaces(q) == done + split_spaces(q.skip(start as int)),
            !more ==> split_spaces(q) == done,
            done.len() > 0 || more,
            first == (done.len() == 0),
            sql@ == search_sql(done),
            binds@.map_values(|b: String| b@) == search_binds(done),
        decreases n - start + (if more { 1int } else { 0 }),
    {
        let ghost rest = q.skip(start as int);
        let mut end = start;
        while end < n && chars[end] != ' '
            invariant
                start <= end <= n,
                chars@ == q,
                n == q.len(),
                forall|k: int| start <= k < end ==> q[k] != ' ',
            decreases n - end,
        {
            end = end + 1;
        }
        proof {
            lemma_space_pos(rest);
            assert forall|k: int| 0 <= k < end - start implies rest[k] != ' ' by {
                assert(rest[k] == q[start + k]);
            }
            if end < n {
                assert(rest[end - start] == ' ');
            }
            assert(space_pos(rest) == end - start) by {
                if space_pos(rest) < end - start {
                    assert(rest[space_pos(rest)] == ' ');
                }
            }
        }
        let word = string_of(&chars, start, end);
        let ghost done_before = done;
        proof {
            reveal_strlit(" WHERE");
            reveal_strlit(" AND");
            reveal_strlit("%");
        }
        if first {
            sql.append(" WHERE");
        } else {
            sql.append(" AND");
        }
        sql.append(" (artist LIKE ?\n\t\t\t\t\t OR title LIKE ?\n\t\t\t\t\t OR path LIKE ?\n\t\t\t\t\t OR effector LIKE ?\n\t\t\t\t\t OR artist_translit LIKE ?\n\t\t\t\t\t OR title_translit LIKE ?)");
        let mut pattern = String::from_str("%");
        pattern.append(word.as_str());
        pattern.append("%");
        let ghost binds_before = binds@;
        let mut copies: usize = 0;
        while copies < 6
            invariant
                copies <= 6,
                binds@.len() == binds_before.len() + copies,
                binds@.subrange(0, binds_before.len() as int) == binds_before,
                forall|k: int|
                    binds_before.len() <= k < binds@.len() ==> (#[trigger] binds@[k])@
                        == pattern@,
            decreases 6 - copies,
        {
            binds.push(pattern.clone());
            copies = copies + 1;
        }
        proof {
            done = done.push(word@);
            assert(done.len() > 0);
            assert(word@ == rest.take(end - start));
            assert(done.drop_last() =~= done_before);
            assert(pattern@ =~= like_pattern(word@));
            assert(binds@.map_values(|b: String| b@) =~= search_binds(done_before) + Seq::new(
                6,
                |_i: int| like_pattern(word@),
            )) by {
                assert(binds@.subrange(0, binds_before.len() as int).map_values(|b: String| b@)
                    =~= search_binds(done_before));
            }
        }
        first = false;
        if end == n {
            proof {
                assert(rest == split_spaces(rest)[0]);
                assert(split_spaces(rest) =~= seq![rest]);
                assert(rest =~= rest.take(end - start));
            }
            more = false;
        } else {
            proof {
                assert(rest.skip(end - start + 1) =~= q.skip(end + 1));
                assert(split_spaces(rest) =~= seq![rest.take(end - start)] + split_spaces(
                    q.skip(end + 1),
                ));
                assert(done_before + split_spaces(rest) =~= done + split_spaces(q.skip(end + 1)));
            }
            start = end + 1;
        }
    }
    (sql, binds)
}

} // verus!
