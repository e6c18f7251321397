//! The status of each character and the status table printed for all of
//! them.

use vstd::prelude::*;

use crate::log::{get_class_name, push_shown_name, spec_class_name, spec_shown_name, LogSettings};
use crate::model::{Class, CurrentAction, Mount};
use crate::text::{
    chars_of, push_chars, push_decimal, push_padded, push_repeat, push_str, spec_decimal, spec_digit,
    spec_pad, spec_repeat, string_from_chars,
};

verus! {

/// What a character is doing, as the status table shows it.
#[derive(Debug, Clone, Copy, PartialEq, Eq, Structural)]
pub enum StatusLabel {
    Idle,
    Working { hours: u8 },
    Quest { quest_idx: u8 },
    Expedition,
    Unknown,
}

/// A row of the status table. Treasure and instructor bonuses are in
/// tenths of a percent; gold is shown from the silver (100 silver make a
/// gold piece).
#[derive(Debug, Clone)]
pub struct CharacterStatus {
    pub name: String,
    pub guild: String,
    pub level: u16,
    pub class: Class,
    pub silver: u64,
    pub mushrooms: u32,
    pub mount: u16,
    pub treasure: u32,
    pub instructor: u32,
    /// Thirst for adventure, in whole minutes.
    pub thirst: u32,
    pub rank: u32,
    pub status: StatusLabel,
}

/// The guild values the status shows.
#[derive(Debug, Clone)]
pub struct GuildSummary {
    pub name: String,
    pub total_treasure_skill: u16,
    pub total_instructor_skill: u16,
    pub finished_raids: u16,
}

/// What the status is computed from.
#[derive(Debug, Clone)]
pub struct StatusInput {
    pub name: String,
    pub guild: Option<GuildSummary>,
    pub level: u16,
    pub class: Class,
    pub silver: u64,
    pub mushrooms: u32,
    pub mount: Option<Mount>,
    pub mount_end: Option<i64>,
    pub now: i64,
    pub thirst_for_adventure_sec: u32,
    pub rank: u32,
    pub current_action: CurrentAction,
}

/// The label for what the character is doing.
pub open spec fn spec_status_label(a: CurrentAction) -> StatusLabel {
    match a {
        CurrentAction::Idle => StatusLabel::Idle,
        CurrentAction::CityGuard { hours, .. } => StatusLabel::Working { hours },
        CurrentAction::Quest { quest_idx } => StatusLabel::Quest { quest_idx },
        CurrentAction::Expedition => StatusLabel::Expedition,
        CurrentAction::Unknown => StatusLabel::Unknown,
    }
}

/// The speed bonus of the rented mount, in percent: none once the rent has
/// run out.
pub open spec fn spec_mount_percent(mount: Option<Mount>, end: Option<i64>, now: i64) -> u16 {
    if end matches Some(e) && e <= now {
        0
    } else {
        match mount {
            Some(Mount::Dragon) => 50,
            Some(Mount::Tiger) => 30,
            Some(Mount::Horse) => 20,
            Some(Mount::Cow) => 10,
            None => 0,
        }
    }
}

/// A guild bonus in tenths of a percent: a fifth of the guild's total
/// skill plus two percent per finished raid (up to 50 raids), at most 200
/// percent.
pub open spec fn spec_guild_bonus(total_skill: u16, finished_raids: u16) -> u32 {
    let raids: int = if finished_raids < 50 {
        finished_raids as int
    } else {
        50
    };
    let tenths = 2 * total_skill + 10 * (raids * 2);
    if tenths < 2000 {
        tenths as u32
    } else {
        2000
    }
}

fn guild_bonus(total_skill: u16, finished_raids: u16) -> (r: u32)
    ensures
        r == spec_guild_bonus(total_skill, finished_raids),
{
    let raids: u32 = if finished_raids < 50 {
        finished_raids as u32
    } else {
        50
    };
    let tenths: u32 = 2 * (total_skill as u32) + 10 * (raids * 2);
    if tenths < 2000 {
        tenths
    } else {
        2000
    }
}

/// The status row of a character.
pub fn character_status(input: &StatusInput) -> (r: CharacterStatus)
    ensures
        r.name@ == input.name@,
        r.guild@ == (match input.guild {
            Some(g) => g.name@,
            None => seq!['-'],
        }),
        r.level == input.level,
        r.class == input.class,
        r.silver == input.silver,
        r.mushrooms == input.mushrooms,
        r.mount == spec_mount_percent(input.mount, input.mount_end, input.now),
        r.treasure == (match input.guild {
            Some(g) => spec_guild_bonus(g.total_treasure_skill, g.finished_raids),
            None => 0,
        }),
        r.instructor == (match input.guild {
            Some(g) => spec_guild_bonus(g.total_instructor_skill, g.finished_raids),
            None => 0,
        }),
        r.thirst == input.thirst_for_adventure_sec / 60,
        r.rank == input.rank,
        r.status == spec_status_label(input.current_action),
{
    let status = match input.current_action {
        CurrentAction::Idle => StatusLabel::Idle,
        CurrentAction::CityGuard { hours, .. } => StatusLabel::Working { hours },
        CurrentAction::Quest { quest_idx } => StatusLabel::Quest { quest_idx },
        CurrentAction::Expedition => StatusLabel::Expedition,
        CurrentAction::Unknown => StatusLabel::Unknown,
    };
    let guild_name = match &input.guild {
        Some(g) => g.name.clone(),
        None => {
            let mut dash: Vec<char> = Vec::new();
            dash.push('-');
            string_from_chars(dash)
        },
    };
    let expired = match input.mount_end {
        Some(e) => e <= input.now,
        None => false,
    };
    let mount: u16 = if expired {
        0
    } else {
        match input.mount {
            Some(Mount::Dragon) => 50,
            Some(Mount::Tiger) => 30,
            Some(Mount::Horse) => 20,
            Some(Mount::Cow) => 10,
            None => 0,
        }
    };
    let (treasure, instructor) = match &input.guild {
        Some(g) => (
            guild_bonus(g.total_treasure_skill, g.finished_raids),
            guild_bonus(g.total_instructor_skill, g.finished_raids),
        ),
        None => (0, 0),
    };
    CharacterStatus {
        name: input.name.clone(),
        guild: guild_name,
        level: input.level,
        class: input.class,
        silver: input.silver,
        mushrooms: input.mushrooms,
        mount,
        treasure,
        instructor,
        thirst: input.thirst_for_adventure_sec / 60,
        rank: input.rank,
        status,
    }
}

// ---------------------------------------------------------------------------
// The table
// ---------------------------------------------------------------------------

/// The number of columns.
pub const COLUMNS: usize = 7;

/// The width of each column.
pub open spec fn spec_widths() -> Seq<nat> {
    seq![14, 5, 12, 10, 9, 8, 12]
}

fn width(i: usize) -> (r: usize)
    requires
        i < COLUMNS,
    ensures
        r == spec_widths()[i as int],
{
    let w: [usize; 7] = [14, 5, 12, 10, 9, 8, 12];
    assert(w@ =~= seq![14usize, 5, 12, 10, 9, 8, 12]);
    w[i]
}

/// The dashes of the border, from column `i` on.
pub open spec fn spec_border_from(i: nat) -> Seq<char>
    decreases COLUMNS - i,
{
    if i >= COLUMNS {
        Seq::empty()
    } else {
        spec_repeat('-', spec_widths()[i as int] + 2) + seq!['+'] + spec_border_from(i + 1)
    }
}

/// The border line: `+----+-- ... --+` and a line break.
pub open spec fn spec_border() -> Seq<char> {
    seq!['+'] + spec_border_from(0) + seq!['\n']
}

/// The cells of a line, from column `i` on.
pub open spec fn spec_cells_from(texts: Seq<Seq<char>>, rights: Seq<bool>, i: nat) -> Seq<char>
    decreases COLUMNS - i,
{
    if i >= COLUMNS {
        Seq::empty()
    } else {
        seq![' '] + spec_pad(texts[i as int], spec_widths()[i as int], rights[i as int]) + seq![' ', '|']
            + spec_cells_from(texts, rights, i + 1)
    }
}

/// A line of the table: `| a | b | ... |` with each cell padded to its
/// column's width (on the left where `rights` says so), and a line break.
pub open spec fn spec_line(texts: Seq<Seq<char>>, rights: Seq<bool>) -> Seq<char> {
    seq!['|'] + spec_cells_from(texts, rights, 0) + seq!['\n']
}

/// The column titles.
pub open spec fn spec_header_texts() -> Seq<Seq<char>> {
    seq!["CHARACTER NAME"@, "LEVEL"@, "CLASS"@, "GOLD"@, "MUSHROOMS"@, "RANK"@, "STATUS"@]
}

/// Every title is left aligned.
pub open spec fn spec_header_rights() -> Seq<bool> {
    Seq::new(7, |i: int| false)
}

/// Text columns are left aligned, numbers right aligned.
pub open spec fn spec_row_rights() -> Seq<bool> {
    seq![false, true, false, true, true, true, false]
}

/// Two digits, with a leading zero below ten.
pub open spec fn spec_two_digits(n: nat) -> Seq<char> {
    if n < 10 {
        seq!['0', spec_digit(n)]
    } else {
        spec_decimal(n)
    }
}

/// Gold with two decimals.
pub open spec fn spec_gold_text(silver: u64) -> Seq<char> {
    spec_decimal((silver / 100) as nat) + seq!['.'] + spec_two_digits((silver % 100) as nat)
}

/// The status label's text.
pub open spec fn spec_label_text(l: StatusLabel) -> Seq<char> {
    match l {
        StatusLabel::Idle => "IDLE"@,
        StatusLabel::Working { hours } => "WORKING ("@ + spec_decimal(hours as nat) + "H)"@,
        StatusLabel::Quest { quest_idx } => "QUEST "@ + spec_decimal(quest_idx as nat + 1),
        StatusLabel::Expedition => "EXPEDITION"@,
        StatusLabel::Unknown => "UNKNOWN"@,
    }
}

/// The cells of a character's row: name (masked when names are hidden),
/// level, class, gold, mushrooms, rank and status.
pub open spec fn spec_row_texts(settings: LogSettings, s: CharacterStatus) -> Seq<Seq<char>> {
    seq![
        spec_shown_name(settings, s.name@),
        spec_decimal(s.level as nat),
        spec_class_name(s.class),
        spec_gold_text(s.silver),
        spec_decimal(s.mushrooms as nat),
        spec_decimal(s.rank as nat),
        spec_label_text(s.status),
    ]
}

/// The rows for the statuses in the given order, from position `k` on.
pub open spec fn spec_rows_from(settings: LogSettings, rows: Seq<CharacterStatus>, k: nat) -> Seq<char>
    decreases rows.len() - k,
{
    if k >= rows.len() {
        Seq::empty()
    } else {
        spec_line(spec_row_texts(settings, rows[k as int]), spec_row_rights()) + spec_rows_from(
            settings,
            rows,
            k + 1,
        )
    }
}

/// The table for statuses in the given order: border, titles, border, one
/// row per character, border.
pub open spec fn spec_table(settings: LogSettings, rows: Seq<CharacterStatus>) -> Seq<char> {
    spec_border() + spec_line(spec_header_texts(), spec_header_rights()) + spec_border() + spec_rows_from(
        settings,
        rows,
        0,
    ) + spec_border()
}

fn push_border(out: &mut Vec<char>)
    ensures
        final(out)@ == old(out)@ + spec_border(),
{
    out.push('+');
    let mut i: usize = 0;
    while i < COLUMNS
        invariant
            i <= COLUMNS,
            out@ + spec_border_from(i as nat) == old(out)@ + seq!['+'] + spec_border_from(0),
        decreases COLUMNS - i,
    {
        let ghost before = out@;
        push_repeat(out, '-', width(i) + 2);
        out.push('+');
        assert(before + spec_border_from(i as nat) == out@ + spec_border_from((i + 1) as nat));
        i = i + 1;
    }
    out.push('\n');
    assert(spec_border_from(COLUMNS as nat) == Seq::<char>::empty());
    assert(old(out)@ + spec_border() == old(out)@ + seq!['+'] + spec_border_from(0) + seq!['\n']);
}

fn push_line(out: &mut Vec<char>, texts: &Vec<Vec<char>>, rights: &Vec<bool>)
    requires
        texts@.len() == COLUMNS,
        rights@.len() == COLUMNS,
    ensures
        final(out)@ == old(out)@ + spec_line(texts@.map_values(|t: Vec<char>| t@), rights@),
{
    let ghost ts = texts@.map_values(|t: Vec<char>| t@);
    out.push('|');
    let mut i: usize = 0;
    while i < COLUMNS
        invariant
            i <= COLUMNS,
            texts@.len() == COLUMNS,
            rights@.len() == COLUMNS,
            ts == texts@.map_values(|t: Vec<char>| t@),
            out@ + spec_cells_from(ts, rights@, i as nat) == old(out)@ + seq!['|'] + spec_cells_from(
                ts,
                rights@,
                0,
            ),
        decreases COLUMNS - i,
    {
        let ghost before = out@;
        out.push(' ');
        push_padded(out, &texts[i], width(i), rights[i]);
        out.push(' ');
        out.push('|');
        assert(ts[i as int] == texts@[i as int]@);
        assert(before + spec_cells_from(ts, rights@, i as nat) == out@ + spec_cells_from(
            ts,
            rights@,
            (i + 1) as nat,
        ));
        i = i + 1;
    }
    out.push('\n');
    assert(spec_cells_from(ts, rights@, COLUMNS as nat) == Seq::<char>::empty());
}

fn push_two_digits(out: &mut Vec<char>, n: u64)
    requires
        n < 100,
    ensures
        final(out)@ == old(out)@ + spec_two_digits(n as nat),
{
    if n < 10 {
        out.push('0');
        push_decimal(out, n);
        assert(spec_decimal(n as nat) == seq![spec_digit(n as nat)]);
        assert(out@ == old(out)@ + seq!['0', spec_digit(n as nat)]);
    } else {
        push_decimal(out, n);
    }
}

fn text_decimal(n: u64) -> (r: Vec<char>)
    ensures
        r@ == spec_decimal(n as nat),
{
    let mut r: Vec<char> = Vec::new();
    push_decimal(&mut r, n);
    assert(r@ == Seq::<char>::empty() + spec_decimal(n as nat));
    r
}

fn text_label(l: StatusLabel) -> (r: Vec<char>)
    ensures
        r@ == spec_label_text(l),
{
    let mut r: Vec<char> = Vec::new();
    match l {
        StatusLabel::Idle => push_str(&mut r, "IDLE"),
        StatusLabel::Working { hours } => {
            push_str(&mut r, "WORKING (");
            push_decimal(&mut r, hours as u64);
            push_str(&mut r, "H)");
        },
        StatusLabel::Quest { quest_idx } => {
            push_str(&mut r, "QUEST ");
            push_decimal(&mut r, quest_idx as u64 + 1);
        },
        StatusLabel::Expedition => push_str(&mut r, "EXPEDITION"),
        StatusLabel::Unknown => push_str(&mut r, "UNKNOWN"),
    }
    assert(r@ =~= spec_label_text(l));
    r
}

fn row_texts(settings: &LogSettings, s: &CharacterStatus) -> (r: Vec<Vec<char>>)
    ensures
        r@.map_values(|t: Vec<char>| t@) == spec_row_texts(*settings, *s),
        r@.len() == COLUMNS,
{
    let mut r: Vec<Vec<char>> = Vec::new();
    let mut name: Vec<char> = Vec::new();
    push_shown_name(&mut name, settings, s.name.as_str());
    assert(name@ =~= spec_shown_name(*settings, s.name@));
    r.push(name);
    r.push(text_decimal(s.level as u64));
    r.push(chars_of(get_class_name(s.class)));
    let mut gold: Vec<char> = Vec::new();
    push_decimal(&mut gold, s.silver / 100);
    gold.push('.');
    push_two_digits(&mut gold, s.silver % 100);
    assert(gold@ =~= spec_gold_text(s.silver));
    r.push(gold);
    r.push(text_decimal(s.mushrooms as u64));
    r.push(text_decimal(s.rank as u64));
    r.push(text_label(s.status));
    assert(r@.map_values(|t: Vec<char>| t@) =~= spec_row_texts(*settings, *s));
    r
}

fn header_texts() -> (r: Vec<Vec<char>>)
    ensures
        r@.map_values(|t: Vec<char>| t@) == spec_header_texts(),
        r@.len() == COLUMNS,
{
    let mut r: Vec<Vec<char>> = Vec::new();
    r.push(chars_of("CHARACTER NAME"));
    r.push(chars_of("LEVEL"));
    r.push(chars_of("CLASS"));
    r.push(chars_of("GOLD"));
    r.push(chars_of("MUSHROOMS"));
    r.push(chars_of("RANK"));
    r.push(chars_of("STATUS"));
    assert(r@.map_values(|t: Vec<char>| t@) =~= spec_header_texts());
    r
}

fn rights(row: bool) -> (r: Vec<bool>)
    ensures
        row ==> r@ == spec_row_rights(),
        !row ==> r@ == spec_header_rights(),
{
    let mut r: Vec<bool> = Vec::new();
    if row {
        r.push(false);
        r.push(true);
        r.push(false);
        r.push(true);
        r.push(true);
        r.push(true);
        r.push(false);
        assert(r@ =~= spec_row_rights());
    } else {
        let mut i: usize = 0;
        while i < COLUMNS
            invariant
                i <= COLUMNS,
                r@ =~= Seq::new(i as nat, |k: int| false),
            decreases COLUMNS - i,
        {
            r.push(false);
            i = i + 1;
        }
        assert(r@ =~= spec_header_rights());
    }
    r
}

// ---------------------------------------------------------------------------
// Order of the rows
// ---------------------------------------------------------------------------

/// Row `a` comes before row `b`: lower rank first, and on equal ranks in
/// the order given.
pub open spec fn spec_before(ranks: Seq<u32>, a: int, b: int) -> bool {
    ranks[a] < ranks[b] || (ranks[a] == ranks[b] && a < b)
}

/// `order` lists every row once, by rank, keeping the given order between
/// equal ranks (a stable sort).
pub open spec fn spec_rank_order(ranks: Seq<u32>, order: Seq<usize>) -> bool {
    &&& order.len() == ranks.len()
    &&& forall|i: int| 0 <= i < order.len() ==> (order[i] as int) < ranks.len()
    &&& forall|i: int, j: int|
        0 <= i < j < order.len() ==> spec_before(ranks, order[i] as int, order[j] as int)
}

/// The order in which rows are shown.
pub fn rank_order(rows: &Vec<CharacterStatus>) -> (r: Vec<usize>)
    ensures
        spec_rank_order(rows@.map_values(|s: CharacterStatus| s.rank), r@),
{
    let ghost ranks = rows@.map_values(|s: CharacterStatus| s.rank);
    let mut order: Vec<usize> = Vec::new();
    let mut i: usize = 0;
    while i < rows.len()
        invariant
            i <= rows@.len(),
            ranks == rows@.map_values(|s: CharacterStatus| s.rank),
            order@.len() == i,
            forall|k: int| 0 <= k < order@.len() ==> (order@[k] as int) < i,
            forall|a: int, b: int|
                0 <= a < b < order@.len() ==> spec_before(ranks, order@[a] as int, order@[b] as int),
        decreases rows@.len() - i,
    {
        let rank = rows[i].rank;
        let mut j: usize = 0;
        while j < order.len() && rows[order[j]].rank <= rank
            invariant
                j <= order@.len(),
                order@.len() == i,
                i < rows@.len(),
                rank == ranks[i as int],
                ranks == rows@.map_values(|s: CharacterStatus| s.rank),
                forall|k: int| 0 <= k < order@.len() ==> (order@[k] as int) < i,
                forall|k: int| 0 <= k < j ==> ranks[order@[k] as int] <= rank,
            decreases order@.len() - j,
        {
            j = j + 1;
        }
        let ghost before = order@;
        order.insert(j, i);
        assert(order@ == before.insert(j as int, i));
        assert forall|a: int, b: int| 0 <= a < b < order@.len() implies spec_before(
            ranks,
            order@[a] as int,
            order@[b] as int,
        ) by {
            if b < j {
            } else if b == j {
                assert(ranks[before[a] as int] <= rank);
            } else if a < j {
                assert(order@[b] == before[b - 1]);
            } else if a == j {
                assert(order@[b] == before[b - 1]);
                assert(j < before.len());
                assert(ranks[before[j as int] as int] > rank);
                if b - 1 > j {
                    assert(spec_before(ranks, before[j as int] as int, before[b - 1] as int));
                }
            } else {
                assert(order@[a] == before[a - 1]);
                assert(order@[b] == before[b - 1]);
            }
        }
        i = i + 1;
    }
    order
}

/// The statuses in the given order.
pub open spec fn spec_arranged(rows: Seq<CharacterStatus>, order: Seq<usize>) -> Seq<CharacterStatus> {
    order.map_values(|k: usize| rows[k as int])
}

/// The status table (character name, level, class, gold, mushrooms, rank
/// and status): one row per character, by rank (equal ranks in the given
/// order), names masked when hidden.
pub fn format_character_table(settings: &LogSettings, rows: &Vec<CharacterStatus>) -> (r: String)
    ensures
        exists|order: Seq<usize>|
            spec_rank_order(rows@.map_values(|s: CharacterStatus| s.rank), order) && r@ == spec_table(
                *settings,
                spec_arranged(rows@, order),
            ),
{
    let order = rank_order(rows);
    let ghost arranged = spec_arranged(rows@, order@);
    let mut out: Vec<char> = Vec::new();
    push_border(&mut out);
    let header = header_texts();
    let left = rights(false);
    push_line(&mut out, &header, &left);
    push_border(&mut out);
    let row_rights = rights(true);
    let ghost start = out@;
    let mut k: usize = 0;
    while k < order.len()
        invariant
            k <= order@.len(),
            order@.len() == rows@.len(),
            forall|q: int| 0 <= q < order@.len() ==> (order@[q] as int) < rows@.len(),
            arranged == spec_arranged(rows@, order@),
            row_rights@ == spec_row_rights(),
            out@ + spec_rows_from(*settings, arranged, k as nat) == start + spec_rows_from(
                *settings,
                arranged,
                0,
            ),
        decreases order@.len() - k,
    {
        let ghost before = out@;
        let texts = row_texts(settings, &rows[order[k]]);
        push_line(&mut out, &texts, &row_rights);
        assert(arranged[k as int] == rows@[order@[k as int] as int]);
        assert(before + spec_rows_from(*settings, arranged, k as nat) == out@ + spec_rows_from(
            *settings,
            arranged,
            (k + 1) as nat,
        ));
        k = k + 1;
    }
    push_border(&mut out);
    assert(spec_rows_from(*settings, arranged, order@.len() as nat) == Seq::<char>::empty());
    assert(out@ == spec_table(*settings, arranged));
    string_from_chars(out)
}

// ---------------------------------------------------------------------------
// Hidden names
// ---------------------------------------------------------------------------

/// Two statuses that differ at most in the character's name and guild.
pub open spec fn spec_same_but_names(a: CharacterStatus, b: CharacterStatus) -> bool {
    &&& a.level == b.level
    &&& a.class == b.class
    &&& a.silver == b.silver
    &&& a.mushrooms == b.mushrooms
    &&& a.mount == b.mount
    &&& a.treasure == b.treasure
    &&& a.instructor == b.instructor
    &&& a.thirst == b.thirst
    &&& a.rank == b.rank
    &&& a.status == b.status
}

/// A rank order lists every row.
proof fn lemma_rank_order_covers(ranks: Seq<u32>, order: Seq<usize>, x: int)
    requires
        spec_rank_order(ranks, order),
        0 <= x < ranks.len(),
    ensures
        exists|p: int| 0 <= p < order.len() && order[p] as int == x,
{
    let s = order.map_values(|k: usize| k as int);
    assert(s.no_duplicates()) by {
        assert forall|i: int, j: int| 0 <= i < s.len() && 0 <= j < s.len() && i != j implies s[i]
            != s[j] by {
            if i < j {
                assert(spec_before(ranks, order[i] as int, order[j] as int));
            } else {
                assert(spec_before(ranks, order[j] as int, order[i] as int));
            }
        }
    }
    s.unique_seq_to_set();
    let all = vstd::set_lib::set_int_range(0, ranks.len() as int);
    vstd::set_lib::lemma_int_range(0, ranks.len() as int);
    assert(s.to_set().subset_of(all)) by {
        assert forall|y: int| s.to_set().contains(y) implies all.contains(y) by {
            let i = choose|i: int| 0 <= i < s.len() && s[i] == y;
            assert(s[i] == order[i] as int);
        }
    }
    vstd::set_lib::lemma_len_subset(s.to_set(), all);
    vstd::set_lib::lemma_subset_equality(s.to_set(), all);
    assert(all.contains(x));
    assert(s.to_set().contains(x));
    let p = choose|p: int| 0 <= p < s.len() && s[p] == x;
    assert(order[p] as int == x);
}

/// Two rank orders of the same ranks agree up to position `i`.
proof fn lemma_rank_orders_agree_to(ranks: Seq<u32>, o1: Seq<usize>, o2: Seq<usize>, i: int)
    requires
        spec_rank_order(ranks, o1),
        spec_rank_order(ranks, o2),
        0 <= i < o1.len(),
    ensures
        forall|j: int| 0 <= j <= i ==> o1[j] == o2[j],
    decreases i,
{
    if i > 0 {
        lemma_rank_orders_agree_to(ranks, o1, o2, i - 1);
    }
    let a = o1[i] as int;
    let b = o2[i] as int;
    if a != b {
        if spec_before(ranks, a, b) {
            lemma_rank_order_covers(ranks, o2, a);
            let p = choose|p: int| 0 <= p < o2.len() && o2[p] as int == a;
            if p < i {
                assert(spec_before(ranks, o1[p] as int, o1[i] as int));
            } else {
                assert(spec_before(ranks, o2[i] as int, o2[p] as int));
            }
        } else {
            lemma_rank_order_covers(ranks, o1, b);
            let p = choose|p: int| 0 <= p < o1.len() && o1[p] as int == b;
            if p < i {
                assert(spec_before(ranks, o2[p] as int, o2[i] as int));
            } else {
                assert(spec_before(ranks, o1[i] as int, o1[p] as int));
            }
        }
    }
}

/// The rank order of given ranks is unique.
pub proof fn law_rank_order_unique(ranks: Seq<u32>, o1: Seq<usize>, o2: Seq<usize>)
    requires
        spec_rank_order(ranks, o1),
        spec_rank_order(ranks, o2),
    ensures
        o1 == o2,
{
    assert forall|i: int| 0 <= i < o1.len() implies o1[i] == o2[i] by {
        lemma_rank_orders_agree_to(ranks, o1, o2, i);
    }
    assert(o1 =~= o2);
}

proof fn lemma_hidden_rows_equal(
    settings: LogSettings,
    a: Seq<CharacterStatus>,
    b: Seq<CharacterStatus>,
    k: nat,
)
    requires
        settings.spec_hidden(),
        a.len() == b.len(),
        forall|i: int| 0 <= i < a.len() ==> spec_same_but_names(#[trigger] a[i], b[i]),
    ensures
        spec_rows_from(settings, a, k) == spec_rows_from(settings, b, k),
    decreases a.len() - k,
{
    if k < a.len() {
        lemma_hidden_rows_equal(settings, a, b, k + 1);
        assert(spec_same_but_names(a[k as int], b[k as int]));
        assert(spec_row_texts(settings, a[k as int]) =~= spec_row_texts(settings, b[k as int]));
    }
}

/// With names hidden, nothing of the characters' names or guilds reaches
/// the status table: two lists of statuses that differ only in names and
/// guilds give the same table.
pub proof fn law_hidden_table_ignores_names(
    settings: LogSettings,
    rows1: Seq<CharacterStatus>,
    rows2: Seq<CharacterStatus>,
    order1: Seq<usize>,
    order2: Seq<usize>,
)
    requires
        settings.spec_hidden(),
        rows1.len() == rows2.len(),
        forall|i: int| 0 <= i < rows1.len() ==> spec_same_but_names(#[trigger] rows1[i], rows2[i]),
        spec_rank_order(rows1.map_values(|s: CharacterStatus| s.rank), order1),
        spec_rank_order(rows2.map_values(|s: CharacterStatus| s.rank), order2),
    ensures
        spec_table(settings, spec_arranged(rows1, order1)) == spec_table(settings, spec_arranged(rows2, order2)),
{
    let ranks1 = rows1.map_values(|s: CharacterStatus| s.rank);
    let ranks2 = rows2.map_values(|s: CharacterStatus| s.rank);
    assert forall|i: int| 0 <= i < ranks1.len() implies ranks1[i] == ranks2[i] by {
        assert(spec_same_but_names(rows1[i], rows2[i]));
    }
    assert(ranks1 =~= ranks2);
    law_rank_order_unique(ranks1, order1, order2);
    let a = spec_arranged(rows1, order1);
    let b = spec_arranged(rows2, order1);
    assert forall|i: int| 0 <= i < a.len() implies spec_same_but_names(#[trigger] a[i], b[i]) by {
        assert(spec_same_but_names(rows1[order1[i] as int], rows2[order1[i] as int]));
    }
    lemma_hidden_rows_equal(settings, a, b, 0);
}

} // verus!
