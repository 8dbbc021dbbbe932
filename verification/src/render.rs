//! Rendering a bounty as the message that shows it.

use vstd::prelude::*;
use crate::bounty::{
    all_keys, content_view, key_at, BountyInfoKey, BountyStakeholder, BountyState,
    BountySubmissionContent, KeyMap, state_name,
};
use crate::bounty_id::{bounty_id_text, BountyNum};
use crate::submission::BountySubmissionFormat;
use crate::text::{
    chars_of, dec, digit_char, join, join_chars, push_dec_u128, push_dec_u64, push_str,
    string_from_chars, views, digit_to_char,
};
use crate::timestamp::{push_time_string, time_string};

verus! {

/// Colour of a bounty message.
pub const SUBMISSION_PENDING: u32 = 0xE6A23C;

/// Where user avatars are served from.
pub open spec fn avatar_url_base() -> Seq<char> {
    "https://fluxerusercontent.com/avatars"@
}

/// Where the platform's static files (default avatars) are served from.
pub open spec fn static_base() -> Seq<char> {
    "https://fluxerstatic.com"@
}

/// Who created a bounty: the user's profile where it could be fetched, else
/// just the user's id.
pub enum BountyCreator {
    User { id: u64, username: String, discriminator: String, avatar: Option<String> },
    Id(u64),
}

/// The parts of a rendered bounty message.
pub struct BountyMessage {
    pub title: String,
    pub description: String,
    pub color: u32,
    pub author_name: String,
    pub author_icon_url: String,
    pub footer: String,
    /// Unix time in milliseconds.
    pub timestamp_ms: i64,
}

/// The title under which a field is shown: the first of its titles.
pub open spec fn key_title(titles: KeyMap<Vec<String>>, k: BountyInfoKey) -> Seq<char> {
    if titles.spec_get(k)@.len() > 0 {
        titles.spec_get(k)@[0]@
    } else {
        "*no titles for key*"@
    }
}

/// One shown field: a heading with the field's title, then its text.
pub open spec fn field_section(titles: KeyMap<Vec<String>>, k: BountyInfoKey, v: Seq<char>) -> Seq<char> {
    "## "@ + key_title(titles, k) + "\n"@ + v
}

/// Sections for the fields among the first `n` in display order that are set,
/// leaving out the title and the due date.
pub open spec fn sections_upto(titles: KeyMap<Vec<String>>, c: Map<BountyInfoKey, Seq<char>>, n: int) -> Seq<Seq<char>>
    decreases n,
{
    if n <= 0 {
        Seq::empty()
    } else {
        let s = sections_upto(titles, c, n - 1);
        let k = key_at(n - 1);
        if k != BountyInfoKey::Title && k != BountyInfoKey::Deadline && c.contains_key(k) {
            s.push(field_section(titles, k, c[k]))
        } else {
            s
        }
    }
}

/// An amount of cents written as dollars with two decimals.
pub open spec fn money(cents: nat) -> Seq<char> {
    dec(cents / 100) + "."@ + seq![digit_char((cents % 100) / 10), digit_char(cents % 10)]
}

/// One contribution line.
pub open spec fn stake_line(s: BountyStakeholder) -> Seq<char> {
    "`$"@ + money(s.amount as nat) + "` by <@"@ + dec(s.user_id as nat) + ">"@ + match s.note {
        Some(n) => " - "@ + n@,
        None => Seq::empty(),
    } + "\n"@
}

/// The contribution lines of the first `n` contributions.
pub open spec fn stake_lines(s: Seq<BountyStakeholder>, n: int) -> Seq<char>
    decreases n,
{
    if n <= 0 {
        Seq::empty()
    } else {
        stake_lines(s, n - 1) + stake_line(s[n - 1])
    }
}

/// The sum of the first `n` contributions.
pub open spec fn stake_total(s: Seq<BountyStakeholder>, n: int) -> nat
    decreases n,
{
    if n <= 0 {
        0
    } else {
        stake_total(s, n - 1) + s[n - 1].amount as nat
    }
}

/// The contributions block: one line per contribution and the total, or
/// nothing when there is no contribution.
pub open spec fn stake_block(s: Seq<BountyStakeholder>) -> Seq<char> {
    if s.len() == 0 {
        Seq::empty()
    } else {
        "**Bounty Amount (USD)**\n"@ + stake_lines(s, s.len() as int) + "**Total Bounty Amount (USD)**\n`$"@
            + money(stake_total(s, s.len() as int)) + "`\n"@
    }
}

/// The description of a bounty message.
pub open spec fn bounty_description(
    titles: KeyMap<Vec<String>>,
    c: Map<BountyInfoKey, Seq<char>>,
    assigned_to: Option<u64>,
    deadline: Option<i64>,
    stakeholders: Seq<BountyStakeholder>,
) -> Seq<char> {
    join(sections_upto(titles, c, 6), "\n"@) + "\n===\n"@ + match assigned_to {
        Some(id) => "**Assigned to**\n<@"@ + dec(id as nat) + ">\n"@,
        None => Seq::empty(),
    } + match deadline {
        Some(t) => "**Due date**\n"@ + time_string(t) + "\n"@,
        None => Seq::empty(),
    } + stake_block(stakeholders)
}

/// The title of a bounty message: the bounty's title, or a placeholder.
pub open spec fn bounty_title(c: Map<BountyInfoKey, Seq<char>>) -> Seq<char> {
    if c.contains_key(BountyInfoKey::Title) {
        c[BountyInfoKey::Title]
    } else {
        "*No title*"@
    }
}

/// The author line of a bounty message.
pub open spec fn creator_name(c: BountyCreator) -> Seq<char> {
    match c {
        BountyCreator::User { id, username, discriminator, .. } =>
            username@ + "#"@ + discriminator@ + " ("@ + dec(id as nat) + ")"@,
        BountyCreator::Id(id) => dec(id as nat),
    }
}

/// The avatar shown next to the author: the user's own avatar, else the
/// default avatar the platform picks from the user id (id mod 6), else avatar 0.
pub open spec fn creator_icon(c: BountyCreator) -> Seq<char> {
    match c {
        BountyCreator::User { id, avatar, .. } => match avatar {
            Some(a) => avatar_url_base() + "/"@ + dec(id as nat) + "/"@ + a@ + ".webp?size=128"@,
            None => static_base() + "/avatars/"@ + dec((id % 6) as nat) + ".png"@,
        },
        BountyCreator::Id(_) => static_base() + "/avatars/0.png"@,
    }
}

/// The footer: the bounty's public id and its state.
pub open spec fn bounty_footer(n: BountyNum, state: BountyState) -> Seq<char> {
    bounty_id_text(n.0) + " - "@ + state_name(state)
}

/// Appends an amount of cents written as dollars with two decimals.
fn push_money(out: &mut Vec<char>, cents: u128)
    ensures
        final(out)@ == old(out)@ + money(cents as nat),
{
    push_dec_u128(out, cents / 100);
    push_str(out, ".");
    out.push(digit_to_char(((cents % 100) / 10) as u64));
    out.push(digit_to_char((cents % 10) as u64));
    assert(final(out)@ =~= old(out)@ + money(cents as nat));
}

/// The shown fields, as sections.
fn field_sections(content: &BountySubmissionContent, titles: &KeyMap<Vec<String>>) -> (r: Vec<Vec<char>>)
    ensures
        views(r@) == sections_upto(*titles, content_view(*content), 6),
{
    let keys = all_keys();
    let mut r: Vec<Vec<char>> = Vec::new();
    let mut i: usize = 0;
    while i < 6
        invariant
            i <= 6,
            keys@.len() == 6,
            forall|k: int| 0 <= k < 6 ==> keys@[k] == key_at(k),
            views(r@) == sections_upto(*titles, content_view(*content), i as int),
        decreases 6 - i,
    {
        let k = keys[i];
        let is_shown = match k {
            BountyInfoKey::Title => false,
            BountyInfoKey::Deadline => false,
            _ => true,
        };
        if is_shown {
            match content.get(k) {
                Some(v) => {
                    let mut sec: Vec<char> = Vec::new();
                    push_str(&mut sec, "## ");
                    let ts = titles.get(k);
                    if ts.len() > 0 {
                        push_str(&mut sec, ts[0].as_str());
                    } else {
                        push_str(&mut sec, "*no titles for key*");
                    }
                    push_str(&mut sec, "\n");
                    push_str(&mut sec, v.as_str());
                    assert(sec@ =~= field_section(*titles, k, v@));
                    let ghost before = r@;
                    r.push(sec);
                    assert(views(r@) =~= views(before).push(field_section(*titles, k, v@)));
                },
                None => {},
            }
        }
        i = i + 1;
    }
    r
}

proof fn lemma_total_bound(s: Seq<BountyStakeholder>, n: int)
    requires
        0 <= n <= s.len(),
    ensures
        stake_total(s, n) <= n * (u64::MAX as int),
    decreases n,
{
    if n > 0 {
        lemma_total_bound(s, n - 1);
        assert(s[n - 1].amount <= u64::MAX);
    }
}

/// Appends the contributions block.
fn push_stake_block(out: &mut Vec<char>, stakeholders: &Vec<BountyStakeholder>)
    ensures
        final(out)@ == old(out)@ + stake_block(stakeholders@),
{
    if stakeholders.len() == 0 {
        assert(old(out)@ + stake_block(stakeholders@) =~= old(out)@);
        return;
    }
    push_str(out, "**Bounty Amount (USD)**\n");
    let ghost head = out@;
    let mut total: u128 = 0;
    let mut i: usize = 0;
    while i < stakeholders.len()
        invariant
            i <= stakeholders.len(),
            out@ == head + stake_lines(stakeholders@, i as int),
            total as nat == stake_total(stakeholders@, i as int),
        decreases stakeholders.len() - i,
    {
        let s = &stakeholders[i];
        proof {
            lemma_total_bound(stakeholders@, i as int);
            assert(i < 0x1_0000_0000_0000_0000);
            assert(stake_total(stakeholders@, i as int) + (s.amount as nat) <= 0x1_0000_0000_0000_0000 * (u64::MAX as int))
                by (nonlinear_arith)
                requires
                    stake_total(stakeholders@, i as int) <= i * (u64::MAX as int),
                    (i as int) < 0x1_0000_0000_0000_0000,
                    s.amount <= u64::MAX;
        }
        total = total + s.amount as u128;
        let ghost before = out@;
        push_str(out, "`$");
        push_money(out, s.amount as u128);
        push_str(out, "` by <@");
        push_dec_u64(out, s.user_id);
        push_str(out, ">");
        match &s.note {
            Some(n) => {
                push_str(out, " - ");
                push_str(out, n.as_str());
            },
            None => {},
        }
        push_str(out, "\n");
        assert(out@ =~= before + stake_line(stakeholders@[i as int]));
        i = i + 1;
    }
    push_str(out, "**Total Bounty Amount (USD)**\n`$");
    push_money(out, total);
    push_str(out, "`\n");
    assert(final(out)@ =~= old(out)@ + stake_block(stakeholders@));
}

/// Renders a bounty as the message that shows it.
pub fn bounty_content_to_message(
    content: &BountySubmissionContent,
    created_by: &BountyCreator,
    format: &BountySubmissionFormat,
    bounty_number: BountyNum,
    created_at_ms: i64,
    state: BountyState,
    assigned_to: Option<u64>,
    deadline: Option<i64>,
    stakeholders: &Vec<BountyStakeholder>,
) -> (r: BountyMessage)
    ensures
        r.title@ == bounty_title(content_view(*content)),
        r.description@ == bounty_description(format.titles, content_view(*content), assigned_to, deadline, stakeholders@),
        r.color == SUBMISSION_PENDING,
        r.author_name@ == creator_name(*created_by),
        r.author_icon_url@ == creator_icon(*created_by),
        r.footer@ == bounty_footer(bounty_number, state),
        r.timestamp_ms == created_at_ms,
{
    let sections = field_sections(content, &format.titles);
    let mut d = join_chars(&sections, "\n");
    push_str(&mut d, "\n===\n");
    match assigned_to {
        Some(id) => {
            push_str(&mut d, "**Assigned to**\n<@");
            push_dec_u64(&mut d, id);
            push_str(&mut d, ">\n");
        },
        None => {},
    }
    match deadline {
        Some(t) => {
            push_str(&mut d, "**Due date**\n");
            push_time_string(&mut d, t);
            push_str(&mut d, "\n");
        },
        None => {},
    }
    push_stake_block(&mut d, stakeholders);
    proof {
        let a = match assigned_to {
            Some(id) => "**Assigned to**\n<@"@ + dec(id as nat) + ">\n"@,
            None => Seq::empty(),
        };
        let dl = match deadline {
            Some(t) => "**Due date**\n"@ + time_string(t) + "\n"@,
            None => Seq::empty(),
        };
        assert(d@ =~= join(sections_upto(format.titles, content_view(*content), 6), "\n"@) + "\n===\n"@ + a + dl
            + stake_block(stakeholders@));
    }
    let description = string_from_chars(&d);

    let title = match &content.title {
        Some(t) => string_from_chars(&chars_of(t.as_str())),
        None => string_from_chars(&chars_of("*No title*")),
    };

    let mut icon: Vec<char> = Vec::new();
    let mut name: Vec<char> = Vec::new();
    match created_by {
        BountyCreator::User { id, username, discriminator, avatar } => {
            match avatar {
                Some(a) => {
                    push_str(&mut icon, "https://fluxerusercontent.com/avatars");
                    push_str(&mut icon, "/");
                    push_dec_u64(&mut icon, *id);
                    push_str(&mut icon, "/");
                    push_str(&mut icon, a.as_str());
                    push_str(&mut icon, ".webp?size=128");
                },
                None => {
                    push_str(&mut icon, "https://fluxerstatic.com");
                    push_str(&mut icon, "/avatars/");
                    push_dec_u64(&mut icon, *id % 6);
                    push_str(&mut icon, ".png");
                },
            }
            push_str(&mut name, username.as_str());
            push_str(&mut name, "#");
            push_str(&mut name, discriminator.as_str());
            push_str(&mut name, " (");
            push_dec_u64(&mut name, *id);
            push_str(&mut name, ")");
        },
        BountyCreator::Id(id) => {
            push_str(&mut icon, "https://fluxerstatic.com");
            push_str(&mut icon, "/avatars/0.png");
            push_dec_u64(&mut name, *id);
        },
    }
    assert(icon@ =~= creator_icon(*created_by));
    assert(name@ =~= creator_name(*created_by));

    let mut footer: Vec<char> = Vec::new();
    let num = bounty_number.to_string();
    push_str(&mut footer, num.as_str());
    push_str(&mut footer, " - ");
    let st = state.to_string();
    push_str(&mut footer, st.as_str());
    assert(footer@ =~= bounty_footer(bounty_number, state));

    BountyMessage {
        title,
        description,
        color: SUBMISSION_PENDING,
        author_name: string_from_chars(&name),
        author_icon_url: string_from_chars(&icon),
        footer: string_from_chars(&footer),
        timestamp_ms: created_at_ms,
    }
}

} // verus!
