//! Bounty submissions: the message template, reading a submission message
//! into content fields, and checking it for required fields.

use vstd::prelude::*;
use crate::bounty::{
    all_keys, content_view, empty_content, key_at, BountyInfoKey, BountySubmissionContent, KeyMap,
};
use crate::bounty_id::{bounty_id_text, BountyNum};
use crate::timestamp::{max_plain_unix_time, parse_timestamp, timestamp_value};
use crate::render::key_title;
use crate::text::{
    chars_eq, chars_of, join, join_chars, lowercase, push_chars, starts_with, string_from_chars,
    string_from_range, to_lowercase, trim, trim_bounds, views,
};

verus! {

/// The template of submission messages: for each field, the section titles
/// that introduce it (the first one is also used when showing the field), and
/// the fields a submission must have.
pub struct BountySubmissionFormat {
    pub titles: KeyMap<Vec<String>>,
    pub required: Vec<BountyInfoKey>,
}

/// `l` without one trailing carriage return.
pub open spec fn strip_cr(l: Seq<char>) -> Seq<char> {
    if l.len() > 0 && l.last() == '\r' {
        l.drop_last()
    } else {
        l
    }
}

/// Lines finished so far, and the line being read, after reading `s`.
pub open spec fn lines_scan(s: Seq<char>) -> (Seq<Seq<char>>, Seq<char>)
    decreases s.len(),
{
    if s.len() == 0 {
        (Seq::empty(), Seq::empty())
    } else {
        let (done, cur) = lines_scan(s.drop_last());
        if s.last() == '\n' {
            (done.push(strip_cr(cur)), Seq::empty())
        } else {
            (done, cur.push(s.last()))
        }
    }
}

/// The lines of `s` as `str::lines` gives them: split after each `\n`, a
/// `\r\n` ending counting as one line ending, and no empty last line.
pub open spec fn split_lines(s: Seq<char>) -> Seq<Seq<char>> {
    let (done, cur) = lines_scan(s);
    if cur.len() > 0 {
        done.push(cur)
    } else {
        done
    }
}

/// Splits text into lines.
pub fn lines_of(v: &Vec<char>) -> (r: Vec<Vec<char>>)
    ensures
        views(r@) == split_lines(v@),
{
    let mut done: Vec<Vec<char>> = Vec::new();
    let mut cur: Vec<char> = Vec::new();
    let mut i: usize = 0;
    while i < v.len()
        invariant
            i <= v.len(),
            (views(done@), cur@) == lines_scan(v@.take(i as int)),
        decreases v.len() - i,
    {
        assert(v@.take(i + 1).drop_last() == v@.take(i as int));
        if v[i] == '\n' {
            let ghost c = cur@;
            if cur.len() > 0 && cur[cur.len() - 1] == '\r' {
                cur.pop();
            }
            assert(cur@ == strip_cr(c));
            let ghost before = done@;
            done.push(cur);
            assert(views(done@) =~= views(before).push(strip_cr(c)));
            cur = Vec::new();
        } else {
            cur.push(v[i]);
        }
        i = i + 1;
    }
    assert(v@.take(v.len() as int) == v@);
    if cur.len() > 0 {
        let ghost before = done@;
        let ghost c = cur@;
        done.push(cur);
        assert(views(done@) =~= views(before).push(c));
    }
    done
}

/// Whether a line starts a section: after trimming it begins with `## `.
pub open spec fn is_title_line(l: Seq<char>) -> bool {
    starts_with(trim(l), "## "@)
}

/// The section title a title line gives.
pub open spec fn title_of(l: Seq<char>) -> Seq<char> {
    trim(trim(l).skip(3))
}

/// Sections finished so far, and the open section (its title and lines).
pub struct PartsScan {
    pub done: Seq<(Seq<char>, Seq<char>)>,
    pub open: Option<(Seq<char>, Seq<Seq<char>>)>,
}

/// The text of a section: its lines joined by newlines, trimmed.
pub open spec fn section_text(lines: Seq<Seq<char>>) -> Seq<char> {
    trim(join(lines, "\n"@))
}

pub open spec fn close_section(st: PartsScan) -> Seq<(Seq<char>, Seq<char>)> {
    match st.open {
        Some((t, ls)) => st.done.push((t, section_text(ls))),
        None => st.done,
    }
}

/// Reading lines one by one: a title line closes the open section and opens a
/// new one; other lines belong to the open section, or are ignored before the first title.
pub open spec fn parts_scan(lines: Seq<Seq<char>>) -> PartsScan
    decreases lines.len(),
{
    if lines.len() == 0 {
        PartsScan { done: Seq::empty(), open: None }
    } else {
        let st = parts_scan(lines.drop_last());
        let l = lines.last();
        if is_title_line(l) {
            PartsScan { done: close_section(st), open: Some((title_of(l), Seq::empty())) }
        } else {
            match st.open {
                Some((t, ls)) => PartsScan { done: st.done, open: Some((t, ls.push(l))) },
                None => st,
            }
        }
    }
}

/// The sections of a message as (title, text) pairs, in order.
pub open spec fn message_parts(lines: Seq<Seq<char>>) -> Seq<(Seq<char>, Seq<char>)> {
    close_section(parts_scan(lines))
}

pub open spec fn part_views(parts: Seq<(Vec<char>, Vec<char>)>) -> Seq<(Seq<char>, Seq<char>)> {
    parts.map_values(|p: (Vec<char>, Vec<char>)| (p.0@, p.1@))
}

/// The trimmed characters of `l`.
fn trimmed(l: &Vec<char>) -> (r: (usize, usize))
    ensures
        r.0 <= r.1 <= l.len(),
        l@.subrange(r.0 as int, r.1 as int) == trim(l@),
{
    let r = trim_bounds(l, 0, l.len());
    assert(l@.subrange(0, l.len() as int) == l@);
    r
}

fn range_chars(v: &Vec<char>, lo: usize, hi: usize) -> (r: Vec<char>)
    requires
        lo <= hi <= v.len(),
    ensures
        r@ == v@.subrange(lo as int, hi as int),
{
    let mut r: Vec<char> = Vec::new();
    let mut i = lo;
    while i < hi
        invariant
            lo <= i <= hi <= v.len(),
            r@ == v@.subrange(lo as int, i as int),
        decreases hi - i,
    {
        r.push(v[i]);
        assert(v@.subrange(lo as int, i + 1) == v@.subrange(lo as int, i as int).push(v@[i as int]));
        i = i + 1;
    }
    r
}

/// Whether a line is a title line, and if so its title.
fn title_line(l: &Vec<char>) -> (r: Option<Vec<char>>)
    ensures
        r is Some == is_title_line(l@),
        r matches Some(t) ==> t@ == title_of(l@),
{
    let (a, b) = trimmed(l);
    let ghost t = l@.subrange(a as int, b as int);
    if b - a >= 3 && l[a] == '#' && l[a + 1] == '#' && l[a + 2] == ' ' {
        proof {
            reveal_strlit("## ");
            assert(t.take(3) =~= "## "@);
        }
        let (c, d) = trim_bounds(l, a + 3, b);
        assert(t.skip(3) == l@.subrange(a + 3, b as int));
        Some(range_chars(l, c, d))
    } else {
        proof {
            reveal_strlit("## ");
            if starts_with(t, "## "@) {
                assert(t.take(3)[0] == '#' && t.take(3)[1] == '#' && t.take(3)[2] == ' ');
            }
        }
        None
    }
}

/// The text of the open section.
fn section_chars(ls: &Vec<Vec<char>>) -> (r: Vec<char>)
    ensures
        r@ == section_text(views(ls@)),
{
    let j = join_chars(ls, "\n");
    let (a, b) = trimmed(&j);
    range_chars(&j, a, b)
}

/// Splits lines into sections.
pub fn parse_parts(lines: &Vec<Vec<char>>) -> (r: Vec<(Vec<char>, Vec<char>)>)
    ensures
        part_views(r@) == message_parts(views(lines@)),
{
    let mut done: Vec<(Vec<char>, Vec<char>)> = Vec::new();
    let mut open_title: Vec<char> = Vec::new();
    let mut open_lines: Vec<Vec<char>> = Vec::new();
    let mut is_open = false;
    let mut i: usize = 0;
    assert(part_views(done@) =~= Seq::<(Seq<char>, Seq<char>)>::empty());
    assert(views(lines@).take(0) =~= Seq::<Seq<char>>::empty());
    while i < lines.len()
        invariant
            i <= lines.len(),
            parts_scan(views(lines@).take(i as int)) == (PartsScan {
                done: part_views(done@),
                open: if is_open { Some((open_title@, views(open_lines@))) } else { None },
            }),
        decreases lines.len() - i,
    {
        let ghost prefix = views(lines@).take(i + 1);
        assert(prefix.drop_last() == views(lines@).take(i as int));
        assert(prefix.last() == lines@[i as int]@);
        match title_line(&lines[i]) {
            Some(t) => {
                if is_open {
                    let text = section_chars(&open_lines);
                    let ghost before = done@;
                    done.push((open_title, text));
                    assert(part_views(done@) =~= part_views(before).push((open_title@, text@)));
                }
                open_title = t;
                open_lines = Vec::new();
                is_open = true;
                assert(views(open_lines@) =~= Seq::<Seq<char>>::empty());
            },
            None => {
                if is_open {
                    let ghost before = open_lines@;
                    open_lines.push(lines[i].clone());
                    assert(views(open_lines@) =~= views(before).push(lines@[i as int]@));
                }
            },
        }
        i = i + 1;
    }
    assert(views(lines@).take(lines.len() as int) == views(lines@));
    if is_open {
        let text = section_chars(&open_lines);
        let ghost before = done@;
        done.push((open_title, text));
        assert(part_views(done@) =~= part_views(before).push((open_title@, text@)));
    }
    done
}

/// Whether one of `titles`, lower-cased, is `lt`.
pub open spec fn title_matches(titles: Seq<String>, lt: Seq<char>) -> bool {
    exists|j: int| 0 <= j < titles.len() && lowercase(#[trigger] titles[j]@) == lt
}

/// The first field, from position `i` on in display order, one of whose titles
/// matches the lower-cased section title `lt`.
pub open spec fn matching_key_from(titles: KeyMap<Vec<String>>, lt: Seq<char>, i: int) -> Option<BountyInfoKey>
    decreases 6 - i,
{
    if i >= 6 || i < 0 {
        None
    } else if title_matches(titles.spec_get(key_at(i))@, lt) {
        Some(key_at(i))
    } else {
        matching_key_from(titles, lt, i + 1)
    }
}

/// The content that sections give: each section whose title (in any letter
/// case) is a title of some field sets that field (the first such field in
/// display order); a later section for the same field replaces an earlier one.
pub open spec fn parts_content(titles: KeyMap<Vec<String>>, parts: Seq<(Seq<char>, Seq<char>)>) -> Map<BountyInfoKey, Seq<char>>
    decreases parts.len(),
{
    if parts.len() == 0 {
        Map::empty()
    } else {
        let m = parts_content(titles, parts.drop_last());
        match matching_key_from(titles, lowercase(parts.last().0), 0) {
            Some(k) => m.insert(k, parts.last().1),
            None => m,
        }
    }
}

/// The content a submission message gives under a template.
pub open spec fn submission_content(format: BountySubmissionFormat, message: Seq<char>) -> Map<BountyInfoKey, Seq<char>> {
    parts_content(format.titles, message_parts(split_lines(message)))
}

proof fn lemma_set_content(c: BountySubmissionContent, c2: BountySubmissionContent, k: BountyInfoKey, v: String)
    requires
        c2.spec_get(k) == Some(v),
        forall|j: BountyInfoKey| j != k ==> c2.spec_get(j) == c.spec_get(j),
    ensures
        content_view(c2) == content_view(c).insert(k, v@),
{
    assert(content_view(c2) =~= content_view(c).insert(k, v@));
}

/// The lower-cased titles of every field, by position in display order.
fn lowered_titles(titles: &KeyMap<Vec<String>>) -> (r: Vec<Vec<Vec<char>>>)
    ensures
        r@.len() == 6,
        forall|i: int| 0 <= i < 6 ==> #[trigger] r@[i]@.len() == titles.spec_get(key_at(i))@.len(),
        forall|i: int, j: int| 0 <= i < 6 && 0 <= j < r@[i]@.len() ==>
            #[trigger] r@[i]@[j]@ == lowercase(titles.spec_get(key_at(i))@[j]@),
{
    let keys = all_keys();
    let mut r: Vec<Vec<Vec<char>>> = Vec::new();
    let mut i: usize = 0;
    while i < 6
        invariant
            i <= 6,
            keys@.len() == 6,
            forall|k: int| 0 <= k < 6 ==> keys@[k] == key_at(k),
            r@.len() == i,
            forall|a: int| 0 <= a < i ==> #[trigger] r@[a]@.len() == titles.spec_get(key_at(a))@.len(),
            forall|a: int, j: int| 0 <= a < i && 0 <= j < r@[a]@.len() ==>
                #[trigger] r@[a]@[j]@ == lowercase(titles.spec_get(key_at(a))@[j]@),
        decreases 6 - i,
    {
        let ts = titles.get(keys[i]);
        let mut lows: Vec<Vec<char>> = Vec::new();
        let mut j: usize = 0;
        while j < ts.len()
            invariant
                j <= ts.len(),
                lows@.len() == j,
                forall|b: int| 0 <= b < j ==> #[trigger] lows@[b]@ == lowercase(ts@[b]@),
            decreases ts.len() - j,
        {
            let l = to_lowercase(ts[j].as_str());
            lows.push(chars_of(l.as_str()));
            j = j + 1;
        }
        r.push(lows);
        i = i + 1;
    }
    r
}

/// Whether one of `lows` is `lt`.
fn any_equal(lows: &Vec<Vec<char>>, lt: &Vec<char>) -> (r: bool)
    ensures
        r == exists|j: int| 0 <= j < lows@.len() && (#[trigger] lows@[j])@ == lt@,
{
    let mut j: usize = 0;
    while j < lows.len()
        invariant
            j <= lows.len(),
            forall|b: int| 0 <= b < j ==> (#[trigger] lows@[b])@ != lt@,
        decreases lows.len() - j,
    {
        if chars_eq(&lows[j], lt) {
            return true;
        }
        j = j + 1;
    }
    false
}

/// Reads a submission message into content fields. Whether the required fields
/// are present is not checked here.
pub fn parse_message_content_as_submission(format: &BountySubmissionFormat, content: &str) -> (r: BountySubmissionContent)
    ensures
        content_view(r) == submission_content(*format, content@),
{
    let lows = lowered_titles(&format.titles);
    let keys = all_keys();
    let v = chars_of(content);
    let lines = lines_of(&v);
    let parts = parse_parts(&lines);
    let ghost pv = part_views(parts@);
    let mut result = empty_content();
    let mut p: usize = 0;
    assert(pv.take(0) =~= Seq::<(Seq<char>, Seq<char>)>::empty());
    while p < parts.len()
        invariant
            p <= parts.len(),
            pv == part_views(parts@),
            pv == message_parts(split_lines(content@)),
            lows@.len() == 6,
            forall|i: int| 0 <= i < 6 ==> #[trigger] lows@[i]@.len() == format.titles.spec_get(key_at(i))@.len(),
            forall|i: int, j: int| 0 <= i < 6 && 0 <= j < lows@[i]@.len() ==>
                #[trigger] lows@[i]@[j]@ == lowercase(format.titles.spec_get(key_at(i))@[j]@),
            keys@.len() == 6,
            forall|k: int| 0 <= k < 6 ==> keys@[k] == key_at(k),
            content_view(result) == parts_content(format.titles, pv.take(p as int)),
        decreases parts.len() - p,
    {
        let title_s = string_from_chars(&parts[p].0);
        let lower = to_lowercase(title_s.as_str());
        let lt = chars_of(lower.as_str());
        let ghost ltv = lt@;
        assert(pv[p as int] == (parts@[p as int].0@, parts@[p as int].1@));
        assert(pv.take(p + 1).drop_last() == pv.take(p as int));
        assert(pv.take(p + 1).last() == pv[p as int]);
        let mut i: usize = 0;
        let mut found = false;
        while i < 6
            invariant_except_break
                !found,
            invariant
                i <= 6,
                lows@.len() == 6,
                forall|a: int| 0 <= a < 6 ==> #[trigger] lows@[a]@.len() == format.titles.spec_get(key_at(a))@.len(),
                forall|a: int, j: int| 0 <= a < 6 && 0 <= j < lows@[a]@.len() ==>
                    #[trigger] lows@[a]@[j]@ == lowercase(format.titles.spec_get(key_at(a))@[j]@),
                keys@.len() == 6,
                forall|k: int| 0 <= k < 6 ==> keys@[k] == key_at(k),
                lt@ == ltv,
                matching_key_from(format.titles, ltv, 0) == matching_key_from(format.titles, ltv, i as int),
            ensures
                found ==> i < 6 && matching_key_from(format.titles, ltv, 0) == Some(key_at(i as int)),
                !found ==> matching_key_from(format.titles, ltv, 0) is None,
            decreases 6 - i,
        {
            let hit = any_equal(&lows[i], &lt);
            proof {
                let ts = format.titles.spec_get(key_at(i as int))@;
                if hit {
                    let j = choose|j: int| 0 <= j < lows@[i as int]@.len() && (#[trigger] lows@[i as int]@[j])@ == lt@;
                    assert(lowercase(ts[j]@) == ltv);
                    assert(title_matches(ts, ltv));
                } else {
                    assert forall|j: int| 0 <= j < ts.len() implies lowercase(#[trigger] ts[j]@) != ltv by {
                        assert(lows@[i as int]@[j]@ == lowercase(ts[j]@));
                    }
                }
            }
            if hit {
                found = true;
                break;
            }
            i = i + 1;
        }
        if found {
            let ghost before = result;
            let value = string_from_chars(&parts[p].1);
            result.set(keys[i], Some(value));
            proof { lemma_set_content(before, result, key_at(i as int), value); }
        }
        p = p + 1;
    }
    assert(pv.take(parts.len() as int) == pv);
    result
}

pub open spec fn strings_view(v: Vec<String>) -> Seq<Seq<char>> {
    v@.map_values(|s: String| s@)
}

/// The section titles of the default template, for each field.
pub open spec fn default_titles(k: BountyInfoKey) -> Seq<Seq<char>> {
    match k {
        BountyInfoKey::Title => seq!["Title"@, "Bounty Title"@],
        BountyInfoKey::AdditionalInfo => seq!["Additional Information"@, "Additional Info"@, "Description"@],
        BountyInfoKey::BountyAmount => seq!["Bounty Amount"@, "Amount"@, "Proposed Amount"@],
        BountyInfoKey::Deadline => seq!["Due Date"@, "Deadline"@],
        BountyInfoKey::IssueUrl => seq!["Issue URL"@, "Issue"@],
        BountyInfoKey::JudgingCriteria => seq!["Judging Criteria"@],
    }
}

/// The fields the default template requires.
pub open spec fn default_required() -> Seq<BountyInfoKey> {
    seq![BountyInfoKey::Title, BountyInfoKey::IssueUrl, BountyInfoKey::BountyAmount]
}

impl Default for BountySubmissionFormat {
    /// The default template.
    fn default() -> (r: BountySubmissionFormat)
        ensures
            forall|k: BountyInfoKey| strings_view(#[trigger] r.titles.spec_get(k)) == default_titles(k),
            r.required@ == default_required(),
    {
        let r = BountySubmissionFormat {
            titles: KeyMap {
                title: vec!["Title".to_owned(), "Bounty Title".to_owned()],
                additional_info: vec![
                    "Additional Information".to_owned(),
                    "Additional Info".to_owned(),
                    "Description".to_owned(),
                ],
                bounty_amount: vec!["Bounty Amount".to_owned(), "Amount".to_owned(), "Proposed Amount".to_owned()],
                deadline: vec!["Due Date".to_owned(), "Deadline".to_owned()],
                issue_url: vec!["Issue URL".to_owned(), "Issue".to_owned()],
                judging_criteria: vec!["Judging Criteria".to_owned()],
            },
            required: vec![BountyInfoKey::Title, BountyInfoKey::IssueUrl, BountyInfoKey::BountyAmount],
        };
        assert forall|k: BountyInfoKey| strings_view(#[trigger] r.titles.spec_get(k)) == default_titles(k) by {
            assert(strings_view(r.titles.spec_get(k)) =~= default_titles(k));
        }
        assert(r.required@ =~= default_required());
        r
    }
}

/// The required fields, among the first `n`, that the content lacks, in template order.
pub open spec fn missing_upto(required: Seq<BountyInfoKey>, c: Map<BountyInfoKey, Seq<char>>, n: int) -> Seq<BountyInfoKey>
    decreases n,
{
    if n <= 0 {
        Seq::empty()
    } else if !c.contains_key(required[n - 1]) {
        missing_upto(required, c, n - 1).push(required[n - 1])
    } else {
        missing_upto(required, c, n - 1)
    }
}

/// The required fields the content lacks, in template order.
pub open spec fn missing_fields(format: BountySubmissionFormat, c: Map<BountyInfoKey, Seq<char>>) -> Seq<BountyInfoKey> {
    missing_upto(format.required@, c, format.required@.len() as int)
}

/// The required fields that a submission lacks.
pub fn missing_required(format: &BountySubmissionFormat, parsed: &BountySubmissionContent) -> (r: Vec<BountyInfoKey>)
    ensures
        r@ == missing_fields(*format, content_view(*parsed)),
{
    let mut r: Vec<BountyInfoKey> = Vec::new();
    let mut i: usize = 0;
    while i < format.required.len()
        invariant
            i <= format.required.len(),
            r@ == missing_upto(format.required@, content_view(*parsed), i as int),
        decreases format.required.len() - i,
    {
        let k = format.required[i];
        if parsed.get(k).is_none() {
            r.push(k);
        }
        i = i + 1;
    }
    r
}

/// The reply to a submission that lacks required fields: their titles.
pub open spec fn missing_fields_text(titles: KeyMap<Vec<String>>, missing: Seq<BountyInfoKey>) -> Seq<char> {
    "Your submission is missing the following: "@ + join(missing.map_values(|k: BountyInfoKey| key_title(titles, k)), ", "@)
}

/// Tells the submitter which required fields are missing.
pub fn missing_fields_message(format: &BountySubmissionFormat, missing: &Vec<BountyInfoKey>) -> (r: String)
    ensures
        r@ == missing_fields_text(format.titles, missing@),
{
    let mut names: Vec<Vec<char>> = Vec::new();
    let mut i: usize = 0;
    while i < missing.len()
        invariant
            i <= missing.len(),
            views(names@) == missing@.take(i as int).map_values(|k: BountyInfoKey| key_title(format.titles, k)),
        decreases missing.len() - i,
    {
        let ts = format.titles.get(missing[i]);
        let name = if ts.len() > 0 { chars_of(ts[0].as_str()) } else { chars_of("*no titles for key*") };
        let ghost before = names@;
        names.push(name);
        assert(views(names@) =~= views(before).push(key_title(format.titles, missing@[i as int])));
        assert(missing@.take(i + 1).map_values(|k: BountyInfoKey| key_title(format.titles, k))
            =~= missing@.take(i as int).map_values(|k: BountyInfoKey| key_title(format.titles, k)).push(key_title(format.titles, missing@[i as int])));
        i = i + 1;
    }
    assert(missing@.take(missing.len() as int) == missing@);
    let mut out = chars_of("Your submission is missing the following: ");
    let joined = join_chars(&names, ", ");
    push_chars(&mut out, &joined);
    string_from_chars(&out)
}

/// What becomes of a submission.
pub enum SubmissionCheck {
    /// Required fields are missing (in template order).
    MissingFields(Vec<BountyInfoKey>),
    /// The due date is not timestamp markup.
    InvalidDeadline,
    /// The bounty can be created, with this due date (Unix seconds).
    Accepted { deadline: Option<i64> },
}

/// Decides whether a parsed submission can become a bounty: every required
/// field must be present, and a due date, if given, must be timestamp markup.
pub fn check_submission(format: &BountySubmissionFormat, parsed: &BountySubmissionContent) -> (r: SubmissionCheck)
    ensures
        missing_fields(*format, content_view(*parsed)).len() > 0 ==> (r matches SubmissionCheck::MissingFields(m)
            && m@ == missing_fields(*format, content_view(*parsed))),
        missing_fields(*format, content_view(*parsed)).len() == 0 ==> match parsed.spec_get(BountyInfoKey::Deadline) {
            None => r matches SubmissionCheck::Accepted { deadline: None },
            Some(d) => {
                &&& (r matches SubmissionCheck::Accepted { deadline: Some(t) } ==> timestamp_value(trim(d@)) == Some(t))
                &&& (r is MissingFields ==> false)
                &&& (r matches SubmissionCheck::Accepted { deadline: None } ==> false)
                &&& (timestamp_value(trim(d@)) is None ==> r is InvalidDeadline)
                &&& (timestamp_value(trim(d@)) matches Some(t) ==> (t <= max_plain_unix_time()
                    ==> (r matches SubmissionCheck::Accepted { deadline: Some(u) } && u == t)))
            },
        },
{
    let missing = missing_required(format, parsed);
    if missing.len() > 0 {
        return SubmissionCheck::MissingFields(missing);
    }
    match parsed.get(BountyInfoKey::Deadline) {
        None => SubmissionCheck::Accepted { deadline: None },
        Some(d) => {
            let v = chars_of(d.as_str());
            let (a, b) = trim_bounds(&v, 0, v.len());
            assert(v@.subrange(0, v.len() as int) == v@);
            let t = string_from_range(&v, a, b);
            match parse_timestamp(t.as_str()) {
                Some(secs) => SubmissionCheck::Accepted { deadline: Some(secs) },
                None => SubmissionCheck::InvalidDeadline,
            }
        },
    }
}

/// The reply to a created submission.
pub open spec fn created_text(n: BountyNum) -> Seq<char> {
    "Bounty `"@ + bounty_id_text(n.0) + "` created (now awaiting approval)."@
}

/// Tells the submitter that the bounty was created.
pub fn created_message(n: BountyNum) -> (r: String)
    ensures
        r@ == created_text(n),
{
    let mut out = chars_of("Bounty `");
    let id = n.to_string();
    crate::text::push_str(&mut out, id.as_str());
    crate::text::push_str(&mut out, "` created (now awaiting approval).");
    assert(out@ =~= created_text(n));
    string_from_chars(&out)
}

} // verus!
