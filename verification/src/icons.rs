//! Font-safe symbols and replacement of emoji in text from the language model.

use vstd::prelude::*;
use crate::llm::analysis::{EndgameReview, KeyMoment, MomentType, OpeningReview, Suggestions, Weaknesses};
use crate::text::{
    chars_of, free_of, lemma_free_suffix, lemma_match_in_tail, lemma_replace_absent, matches_at, replace_all,
    replace_chars, string_of,
};

verus! {

/// Symbol close (U+00D7).
pub const CLOSE: &'static str = "×";

/// Symbol check (U+221A).
pub const CHECK: &'static str = "√";

/// Symbol cancel.
pub const CANCEL: &'static str = "×";

/// Symbol add (U+002B).
pub const ADD: &'static str = "+";

/// Symbol minus (U+2212).
pub const MINUS: &'static str = "−";

/// Symbol arrow left (U+2190).
pub const ARROW_LEFT: &'static str = "←";

/// Symbol arrow right (U+2192).
pub const ARROW_RIGHT: &'static str = "→";

/// Symbol arrow up (U+2191).
pub const ARROW_UP: &'static str = "↑";

/// Symbol arrow down (U+2193).
pub const ARROW_DOWN: &'static str = "↓";

/// Symbol prev (U+25C0).
pub const PREV: &'static str = "◀";

/// Symbol next (U+25B6).
pub const NEXT: &'static str = "▶";

/// Symbol star (U+2605).
pub const STAR: &'static str = "★";

/// Symbol star empty (U+2606).
pub const STAR_EMPTY: &'static str = "☆";

/// Symbol error (U+00D7).
pub const ERROR: &'static str = "×";

/// Symbol warning (U+25C6).
pub const WARNING: &'static str = "◆";

/// Symbol info (U+25CE).
pub const INFO: &'static str = "◎";

/// Symbol loading (U+25CF).
pub const LOADING: &'static str = "●";

/// Symbol success (U+221A).
pub const SUCCESS: &'static str = "√";

/// Symbol turning point (U+25C6).
pub const TURNING_POINT: &'static str = "◆";

/// Symbol brilliant.
pub const BRILLIANT: &'static str = "★";

/// Symbol mistake (U+00D7).
pub const MISTAKE: &'static str = "×";

/// Symbol red marker (U+25CF).
pub const RED_MARKER: &'static str = "●";

/// Symbol black marker (U+25CB).
pub const BLACK_MARKER: &'static str = "○";

/// Symbol victory.
pub const VICTORY: &'static str = "★";

/// Symbol defeat.
pub const DEFEAT: &'static str = "✗";

/// Symbol draw (U+003D).
pub const DRAW: &'static str = "=";

/// Symbol line h (U+2500).
pub const LINE_H: &'static str = "─";

/// Symbol line v (U+2502).
pub const LINE_V: &'static str = "│";

/// Symbol corner tl (U+250C).
pub const CORNER_TL: &'static str = "┌";

/// Symbol corner tr (U+2510).
pub const CORNER_TR: &'static str = "┐";

/// Symbol corner bl (U+2514).
pub const CORNER_BL: &'static str = "└";

/// Symbol corner br (U+2518).
pub const CORNER_BR: &'static str = "┘";

/// Symbol bullet (U+2022).
pub const BULLET: &'static str = "•";

/// Symbol bullet empty (U+25E6).
pub const BULLET_EMPTY: &'static str = "◦";

/// The emoji replaced in model output, with their font-safe replacements, in the order they
/// are applied.
pub open spec fn emoji_table() -> Seq<(Seq<char>, Seq<char>)> {
    seq![
        ("🌟"@, "★"@),
        ("⭐"@, "★"@),
        ("🏆"@, "★"@),
        ("❌"@, "×"@),
        ("✕"@, "×"@),
        ("💀"@, "×"@),
        ("✔️"@, "√"@),
        ("✔"@, "√"@),
        ("⚡"@, "◆"@),
        ("⚠️"@, "◆"@),
        ("⚠"@, "◆"@),
        ("⏳"@, "◎"@),
        ("ℹ️"@, "◎"@),
        ("ℹ"@, "◎"@),
        ("⬅️"@, "←"@),
        ("⬅"@, "←"@),
        ("➡️"@, "→"@),
        ("➡"@, "→"@),
        ("⬆️"@, "↑"@),
        ("⬆"@, "↑"@),
        ("⬇️"@, "↓"@),
        ("⬇"@, "↓"@),
        ("◀️"@, "◀"@),
        ("▶️"@, "▶"@),
        ("➕"@, "+"@),
        ("➖"@, "−"@),
        ("🔴"@, "●"@),
        ("⚪"@, "○"@),
        ("👍"@, "√"@),
        ("👎"@, "×"@),
        ("💡"@, "◎"@),
        ("🎯"@, "★"@),
        ("📌"@, "•"@),
        ("🔥"@, "◆"@),
        ("💪"@, "★"@),
        ("👀"@, "◎"@)
    ]
}

/// The replacement table.
fn emoji_replacements() -> (t: Vec<(&'static str, &'static str)>)
    ensures
        t@.len() == emoji_table().len(),
        forall|i: int| 0 <= i < t@.len() ==> (#[trigger] t@[i]).0@ == emoji_table()[i].0 && t@[i].1@ == emoji_table()[i].1,
        forall|i: int| 0 <= i < t@.len() ==> (#[trigger] t@[i]).0@.len() > 0,
{
    proof {
            reveal_strlit("🌟");
            reveal_strlit("⭐");
            reveal_strlit("🏆");
            reveal_strlit("❌");
            reveal_strlit("✕");
            reveal_strlit("💀");
            reveal_strlit("✔️");
            reveal_strlit("✔");
            reveal_strlit("⚡");
            reveal_strlit("⚠️");
            reveal_strlit("⚠");
            reveal_strlit("⏳");
            reveal_strlit("ℹ️");
            reveal_strlit("ℹ");
            reveal_strlit("⬅️");
            reveal_strlit("⬅");
            reveal_strlit("➡️");
            reveal_strlit("➡");
            reveal_strlit("⬆️");
            reveal_strlit("⬆");
            reveal_strlit("⬇️");
            reveal_strlit("⬇");
            reveal_strlit("◀️");
            reveal_strlit("▶️");
            reveal_strlit("➕");
            reveal_strlit("➖");
            reveal_strlit("🔴");
            reveal_strlit("⚪");
            reveal_strlit("👍");
            reveal_strlit("👎");
            reveal_strlit("💡");
            reveal_strlit("🎯");
            reveal_strlit("📌");
            reveal_strlit("🔥");
            reveal_strlit("💪");
            reveal_strlit("👀");
    }
    let mut t: Vec<(&'static str, &'static str)> = Vec::new();
    t.push(("🌟", STAR));
    t.push(("⭐", STAR));
    t.push(("🏆", STAR));
    t.push(("❌", ERROR));
    t.push(("✕", CLOSE));
    t.push(("💀", ERROR));
    t.push(("✔️", CHECK));
    t.push(("✔", CHECK));
    t.push(("⚡", WARNING));
    t.push(("⚠️", WARNING));
    t.push(("⚠", WARNING));
    t.push(("⏳", INFO));
    t.push(("ℹ️", INFO));
    t.push(("ℹ", INFO));
    t.push(("⬅️", ARROW_LEFT));
    t.push(("⬅", ARROW_LEFT));
    t.push(("➡️", ARROW_RIGHT));
    t.push(("➡", ARROW_RIGHT));
    t.push(("⬆️", ARROW_UP));
    t.push(("⬆", ARROW_UP));
    t.push(("⬇️", ARROW_DOWN));
    t.push(("⬇", ARROW_DOWN));
    t.push(("◀️", PREV));
    t.push(("▶️", NEXT));
    t.push(("➕", ADD));
    t.push(("➖", MINUS));
    t.push(("🔴", RED_MARKER));
    t.push(("⚪", BLACK_MARKER));
    t.push(("👍", CHECK));
    t.push(("👎", ERROR));
    t.push(("💡", INFO));
    t.push(("🎯", STAR));
    t.push(("📌", BULLET));
    t.push(("🔥", WARNING));
    t.push(("💪", STAR));
    t.push(("👀", INFO));
    t
}

/// Applies the replacements of `table` from entry `i` on, in order.
pub open spec fn apply_replacements(s: Seq<char>, table: Seq<(Seq<char>, Seq<char>)>, i: int) -> Seq<char>
    decreases table.len() - i,
{
    if i < 0 || i >= table.len() {
        s
    } else {
        apply_replacements(replace_all(s, table[i].0, table[i].1), table, i + 1)
    }
}

/// `s` with every emoji of the table replaced by its font-safe symbol.
pub open spec fn spec_sanitize(s: Seq<char>) -> Seq<char> {
    apply_replacements(s, emoji_table(), 0)
}

/// The icon of a key-moment kind given by name.
pub open spec fn spec_moment_type_icon(moment_type: Seq<char>) -> Seq<char> {
    if moment_type == "brilliant"@ {
        BRILLIANT@
    } else if moment_type == "mistake"@ {
        MISTAKE@
    } else if moment_type == "turning_point"@ {
        TURNING_POINT@
    } else {
        INFO@
    }
}

/// The name of a key-moment kind as the review data spells it.
pub open spec fn moment_type_name(m: MomentType) -> Seq<char> {
    match m {
        MomentType::Brilliant => "brilliant"@,
        MomentType::Mistake => "mistake"@,
        MomentType::TurningPoint => "turning_point"@,
    }
}

/// Replacing a non-empty pattern in a text of one character gives the replacement when the
/// pattern is that character, and leaves the text otherwise.
proof fn lemma_replace_single(c: char, pat: Seq<char>, rep: Seq<char>)
    requires
        pat.len() > 0,
    ensures
        replace_all(seq![c], pat, rep) == (if pat == seq![c] {
            rep
        } else {
            seq![c]
        }),
{
    let s = seq![c];
    assert(replace_all(Seq::<char>::empty(), pat, rep) == Seq::<char>::empty());
    if pat == s {
        assert(s.subrange(0, 1) =~= s);
        assert(matches_at(s, pat, 0));
        assert(s.skip(1) =~= Seq::<char>::empty());
        assert(rep + Seq::<char>::empty() =~= rep);
    } else {
        if matches_at(s, pat, 0) {
            assert(s.subrange(0, 1) =~= s);
        }
        assert(s.drop_first() =~= Seq::<char>::empty());
        assert(seq![c] + Seq::<char>::empty() =~= seq![c]);
    }
}

/// No pattern of the emoji table in entries `i` to `j` (excluded) is the one-character text
/// `c`, and each of those patterns is non-empty.
pub open spec fn untouched_between(c: char, i: int, j: int) -> bool
    decreases j - i,
{
    if i < 0 || i >= j || i >= emoji_table().len() {
        true
    } else {
        emoji_table()[i].0.len() > 0 && emoji_table()[i].0 != seq![c] && untouched_between(c, i + 1, j)
    }
}

/// The replacements of entries `i` to `j` leave a one-character text that none of them
/// matches as it is.
proof fn lemma_untouched(c: char, i: int, j: int)
    requires
        0 <= i <= j <= emoji_table().len(),
        untouched_between(c, i, j),
    ensures
        apply_replacements(seq![c], emoji_table(), i) == apply_replacements(seq![c], emoji_table(), j),
    decreases j - i,
{
    if i < j {
        lemma_replace_single(c, emoji_table()[i].0, emoji_table()[i].1);
        lemma_untouched(c, i + 1, j);
    }
}

/// Entry `i` of the emoji table turns the one-character text `c` into the one-character text
/// `d`.
proof fn lemma_replaced_at(c: char, d: char, i: int)
    requires
        0 <= i < emoji_table().len(),
        emoji_table()[i].0 == seq![c],
        emoji_table()[i].1 == seq![d],
    ensures
        apply_replacements(seq![c], emoji_table(), i) == apply_replacements(seq![d], emoji_table(), i + 1),
{
    lemma_replace_single(c, emoji_table()[i].0, emoji_table()[i].1);
}

/// The brilliant icon, looked up by name, is the sanitized icon of the kind.
proof fn lemma_brilliant_icon(m: MomentType)
    requires
        m == MomentType::Brilliant,
    ensures
        spec_moment_type_icon(moment_type_name(m)) == spec_sanitize(m.spec_icon()),
{
    reveal_strlit("brilliant");
    reveal_strlit("mistake");
    reveal_strlit("turning_point");
    reveal_strlit("★");
    reveal_strlit("×");
    reveal_strlit("◆");
    reveal_strlit("🌟");
    reveal_strlit("⭐");
    reveal_strlit("🏆");
    reveal_strlit("❌");
    reveal_strlit("✕");
    reveal_strlit("💀");
    reveal_strlit("✔️");
    reveal_strlit("✔");
    reveal_strlit("⚡");
    reveal_strlit("⚠️");
    reveal_strlit("⚠");
    reveal_strlit("⏳");
    reveal_strlit("ℹ️");
    reveal_strlit("ℹ");
    reveal_strlit("⬅️");
    reveal_strlit("⬅");
    reveal_strlit("➡️");
    reveal_strlit("➡");
    reveal_strlit("⬆️");
    reveal_strlit("⬆");
    reveal_strlit("⬇️");
    reveal_strlit("⬇");
    reveal_strlit("◀️");
    reveal_strlit("▶️");
    reveal_strlit("➕");
    reveal_strlit("➖");
    reveal_strlit("🔴");
    reveal_strlit("⚪");
    reveal_strlit("👍");
    reveal_strlit("👎");
    reveal_strlit("💡");
    reveal_strlit("🎯");
    reveal_strlit("📌");
    reveal_strlit("🔥");
    reveal_strlit("💪");
    reveal_strlit("👀");
    reveal_with_fuel(untouched_between, 37);
    let n = emoji_table().len() as int;
    assert(n == 36);
        assert(m.spec_icon() =~= seq!['\u{1F31F}']);
        assert(emoji_table()[0].0 =~= seq!['\u{1F31F}']);
        assert(emoji_table()[0].1 =~= seq!['\u{2605}']);
        lemma_replaced_at('\u{1F31F}', '\u{2605}', 0);
        lemma_untouched('\u{2605}', 1, n);
        assert(apply_replacements(seq!['\u{2605}'], emoji_table(), n) == seq!['\u{2605}']);
        assert(BRILLIANT@ =~= seq!['\u{2605}']);
        assert(spec_moment_type_icon(moment_type_name(m)) == seq!['\u{2605}']);
        assert(spec_sanitize(m.spec_icon()) == apply_replacements(seq!['\u{1F31F}'], emoji_table(), 0));
        assert(apply_replacements(seq!['\u{1F31F}'], emoji_table(), 0) == apply_replacements(seq!['\u{2605}'], emoji_table(), 1));
        assert(apply_replacements(seq!['\u{2605}'], emoji_table(), 1) == apply_replacements(seq!['\u{2605}'], emoji_table(), n));
        assert(spec_moment_type_icon(moment_type_name(m)) == spec_sanitize(m.spec_icon()));
}

/// The mistake icon, looked up by name, is the sanitized icon of the kind.
proof fn lemma_mistake_icon(m: MomentType)
    requires
        m == MomentType::Mistake,
    ensures
        spec_moment_type_icon(moment_type_name(m)) == spec_sanitize(m.spec_icon()),
{
    reveal_strlit("brilliant");
    reveal_strlit("mistake");
    reveal_strlit("turning_point");
    reveal_strlit("★");
    reveal_strlit("×");
    reveal_strlit("◆");
    reveal_strlit("🌟");
    reveal_strlit("⭐");
    reveal_strlit("🏆");
    reveal_strlit("❌");
    reveal_strlit("✕");
    reveal_strlit("💀");
    reveal_strlit("✔️");
    reveal_strlit("✔");
    reveal_strlit("⚡");
    reveal_strlit("⚠️");
    reveal_strlit("⚠");
    reveal_strlit("⏳");
    reveal_strlit("ℹ️");
    reveal_strlit("ℹ");
    reveal_strlit("⬅️");
    reveal_strlit("⬅");
    reveal_strlit("➡️");
    reveal_strlit("➡");
    reveal_strlit("⬆️");
    reveal_strlit("⬆");
    reveal_strlit("⬇️");
    reveal_strlit("⬇");
    reveal_strlit("◀️");
    reveal_strlit("▶️");
    reveal_strlit("➕");
    reveal_strlit("➖");
    reveal_strlit("🔴");
    reveal_strlit("⚪");
    reveal_strlit("👍");
    reveal_strlit("👎");
    reveal_strlit("💡");
    reveal_strlit("🎯");
    reveal_strlit("📌");
    reveal_strlit("🔥");
    reveal_strlit("💪");
    reveal_strlit("👀");
    reveal_with_fuel(untouched_between, 37);
    let n = emoji_table().len() as int;
    assert(n == 36);
        assert(m.spec_icon() =~= seq!['\u{274C}']);
        assert(emoji_table()[0].0[0] != '\u{274C}');
        assert(emoji_table()[1].0[0] != '\u{274C}');
        assert(emoji_table()[2].0[0] != '\u{274C}');
        lemma_untouched('\u{274C}', 0, 3);
        assert(emoji_table()[3].0 =~= seq!['\u{274C}']);
        assert(emoji_table()[3].1 =~= seq!['\u{00D7}']);
        lemma_replaced_at('\u{274C}', '\u{00D7}', 3);
        lemma_untouched('\u{00D7}', 4, n);
        assert(MISTAKE@ =~= seq!['\u{00D7}']);
    assert(spec_sanitize(m.spec_icon()) == apply_replacements(seq!['\u{274C}'], emoji_table(), 0));
    assert(apply_replacements(seq!['\u{274C}'], emoji_table(), 0) == apply_replacements(seq!['\u{274C}'], emoji_table(), 3));
    assert(apply_replacements(seq!['\u{274C}'], emoji_table(), 3) == apply_replacements(seq!['\u{00D7}'], emoji_table(), 4));
    assert(apply_replacements(seq!['\u{00D7}'], emoji_table(), 4) == apply_replacements(seq!['\u{00D7}'], emoji_table(), n));
    assert(apply_replacements(seq!['\u{00D7}'], emoji_table(), n) == seq!['\u{00D7}']);
    assert("mistake"@.len() != "brilliant"@.len());
    assert(spec_moment_type_icon(moment_type_name(m)) == seq!['\u{00D7}']);
}

/// The turning point icon, looked up by name, is the sanitized icon of the kind.
proof fn lemma_turning_point_icon(m: MomentType)
    requires
        m == MomentType::TurningPoint,
    ensures
        spec_moment_type_icon(moment_type_name(m)) == spec_sanitize(m.spec_icon()),
{
    reveal_strlit("brilliant");
    reveal_strlit("mistake");
    reveal_strlit("turning_point");
    reveal_strlit("★");
    reveal_strlit("×");
    reveal_strlit("◆");
    reveal_strlit("🌟");
    reveal_strlit("⭐");
    reveal_strlit("🏆");
    reveal_strlit("❌");
    reveal_strlit("✕");
    reveal_strlit("💀");
    reveal_strlit("✔️");
    reveal_strlit("✔");
    reveal_strlit("⚡");
    reveal_strlit("⚠️");
    reveal_strlit("⚠");
    reveal_strlit("⏳");
    reveal_strlit("ℹ️");
    reveal_strlit("ℹ");
    reveal_strlit("⬅️");
    reveal_strlit("⬅");
    reveal_strlit("➡️");
    reveal_strlit("➡");
    reveal_strlit("⬆️");
    reveal_strlit("⬆");
    reveal_strlit("⬇️");
    reveal_strlit("⬇");
    reveal_strlit("◀️");
    reveal_strlit("▶️");
    reveal_strlit("➕");
    reveal_strlit("➖");
    reveal_strlit("🔴");
    reveal_strlit("⚪");
    reveal_strlit("👍");
    reveal_strlit("👎");
    reveal_strlit("💡");
    reveal_strlit("🎯");
    reveal_strlit("📌");
    reveal_strlit("🔥");
    reveal_strlit("💪");
    reveal_strlit("👀");
    reveal_with_fuel(untouched_between, 37);
    let n = emoji_table().len() as int;
    assert(n == 36);
        assert(m.spec_icon() =~= seq!['\u{26A1}']);
        assert(emoji_table()[0].0[0] != '\u{26A1}');
        assert(emoji_table()[1].0[0] != '\u{26A1}');
        assert(emoji_table()[2].0[0] != '\u{26A1}');
        assert(emoji_table()[3].0[0] != '\u{26A1}');
        assert(emoji_table()[4].0[0] != '\u{26A1}');
        assert(emoji_table()[5].0[0] != '\u{26A1}');
        assert(emoji_table()[6].0[0] != '\u{26A1}');
        assert(emoji_table()[7].0[0] != '\u{26A1}');
        lemma_untouched('\u{26A1}', 0, 8);
        assert(emoji_table()[8].0 =~= seq!['\u{26A1}']);
        assert(emoji_table()[8].1 =~= seq!['\u{25C6}']);
        lemma_replaced_at('\u{26A1}', '\u{25C6}', 8);
        lemma_untouched('\u{25C6}', 9, n);
        assert(TURNING_POINT@ =~= seq!['\u{25C6}']);
    assert(spec_sanitize(m.spec_icon()) == apply_replacements(seq!['\u{26A1}'], emoji_table(), 0));
    assert(apply_replacements(seq!['\u{26A1}'], emoji_table(), 0) == apply_replacements(seq!['\u{26A1}'], emoji_table(), 8));
    assert(apply_replacements(seq!['\u{26A1}'], emoji_table(), 8) == apply_replacements(seq!['\u{25C6}'], emoji_table(), 9));
    assert(apply_replacements(seq!['\u{25C6}'], emoji_table(), 9) == apply_replacements(seq!['\u{25C6}'], emoji_table(), n));
    assert(apply_replacements(seq!['\u{25C6}'], emoji_table(), n) == seq!['\u{25C6}']);
    assert("turning_point"@.len() != "brilliant"@.len());
    assert("turning_point"@.len() != "mistake"@.len());
    assert(spec_moment_type_icon(moment_type_name(m)) == seq!['\u{25C6}']);
}

/// The icon given for a key-moment kind by its name is the kind's own icon with its emoji
/// replaced by the font-safe symbol.
pub proof fn law_moment_icon_is_sanitized(m: MomentType)
    ensures
        spec_moment_type_icon(moment_type_name(m)) == spec_sanitize(m.spec_icon()),
{
    match m {
        MomentType::Brilliant => lemma_brilliant_icon(m),
        MomentType::Mistake => lemma_mistake_icon(m),
        MomentType::TurningPoint => lemma_turning_point_icon(m),
    }
}

/// The variation selector that turns a character into its emoji form.
pub open spec fn variation_selector() -> char {
    '\u{FE0F}'
}

/// A pattern of the emoji table: one character, or a character and the variation selector.
pub open spec fn short_pattern(p: Seq<char>) -> bool {
    p.len() == 1 || (p.len() == 2 && p[1] == variation_selector())
}

/// A character followed by two variation selectors.
pub open spec fn doubled_selector(c: char) -> Seq<char> {
    seq![c, variation_selector(), variation_selector()]
}

/// A symbol that the table puts in place of an emoji.
pub open spec fn replacement_char(c: char) -> bool {
    c == '\u{2B}' || c == '\u{D7}' || c == '\u{2022}' || c == '\u{2190}' || c == '\u{2191}' || c == '\u{2192}' || c == '\u{2193}' || c == '\u{2212}' || c == '\u{221A}' || c == '\u{25B6}' || c == '\u{25C0}' || c == '\u{25C6}' || c == '\u{25CB}' || c == '\u{25CE}' || c == '\u{25CF}' || c == '\u{2605}'
}

/// A character that an emoji of the table starts with.
pub open spec fn pattern_head(c: char) -> bool {
    c == '\u{2139}' || c == '\u{23F3}' || c == '\u{25B6}' || c == '\u{25C0}' || c == '\u{26A0}' || c == '\u{26A1}' || c == '\u{26AA}' || c == '\u{2714}' || c == '\u{2715}' || c == '\u{274C}' || c == '\u{2795}' || c == '\u{2796}' || c == '\u{27A1}' || c == '\u{2B05}' || c == '\u{2B06}' || c == '\u{2B07}' || c == '\u{2B50}' || c == '\u{1F31F}' || c == '\u{1F3AF}' || c == '\u{1F3C6}' || c == '\u{1F440}' || c == '\u{1F44D}' || c == '\u{1F44E}' || c == '\u{1F480}' || c == '\u{1F4A1}' || c == '\u{1F4AA}' || c == '\u{1F4CC}' || c == '\u{1F525}' || c == '\u{1F534}'
}

/// What every entry of the table looks like: a short pattern replaced by one symbol; only
/// the entries of the two triangles (22 and 23) give back the character they start with.
proof fn lemma_table_shape()
    ensures
        emoji_table().len() == 36,
        forall|i: int|
            0 <= i < 36 ==> short_pattern(#[trigger] emoji_table()[i].0) && emoji_table()[i].1.len() == 1
                && replacement_char(emoji_table()[i].1[0]) && pattern_head(emoji_table()[i].0[0]),
        forall|i: int| 0 <= i < 36 && #[trigger] emoji_table()[i].1[0] == '\u{25C0}' ==> i == 22,
        forall|i: int| 0 <= i < 36 && #[trigger] emoji_table()[i].1[0] == '\u{25B6}' ==> i == 23,
        forall|i: int| 0 <= i < 36 && #[trigger] emoji_table()[i].0[0] == '\u{25C0}' ==> i == 22,
        forall|i: int| 0 <= i < 36 && #[trigger] emoji_table()[i].0[0] == '\u{25B6}' ==> i == 23,
        emoji_table()[22].0 == seq!['\u{25C0}', variation_selector()],
        emoji_table()[22].1 == seq!['\u{25C0}'],
        emoji_table()[23].0 == seq!['\u{25B6}', variation_selector()],
        emoji_table()[23].1 == seq!['\u{25B6}'],
{
    reveal_strlit("+");
    reveal_strlit("×");
    reveal_strlit("•");
    reveal_strlit("ℹ");
    reveal_strlit("ℹ️");
    reveal_strlit("←");
    reveal_strlit("↑");
    reveal_strlit("→");
    reveal_strlit("↓");
    reveal_strlit("−");
    reveal_strlit("√");
    reveal_strlit("⏳");
    reveal_strlit("▶");
    reveal_strlit("▶️");
    reveal_strlit("◀");
    reveal_strlit("◀️");
    reveal_strlit("◆");
    reveal_strlit("○");
    reveal_strlit("◎");
    reveal_strlit("●");
    reveal_strlit("★");
    reveal_strlit("⚠");
    reveal_strlit("⚠️");
    reveal_strlit("⚡");
    reveal_strlit("⚪");
    reveal_strlit("✔");
    reveal_strlit("✔️");
    reveal_strlit("✕");
    reveal_strlit("❌");
    reveal_strlit("➕");
    reveal_strlit("➖");
    reveal_strlit("➡");
    reveal_strlit("➡️");
    reveal_strlit("⬅");
    reveal_strlit("⬅️");
    reveal_strlit("⬆");
    reveal_strlit("⬆️");
    reveal_strlit("⬇");
    reveal_strlit("⬇️");
    reveal_strlit("⭐");
    reveal_strlit("🌟");
    reveal_strlit("🎯");
    reveal_strlit("🏆");
    reveal_strlit("👀");
    reveal_strlit("👍");
    reveal_strlit("👎");
    reveal_strlit("💀");
    reveal_strlit("💡");
    reveal_strlit("💪");
    reveal_strlit("📌");
    reveal_strlit("🔥");
    reveal_strlit("🔴");
    assert(emoji_table()[0].0 =~= seq!['\u{1F31F}']);
    assert(emoji_table()[0].1 =~= seq!['\u{2605}']);
    assert(emoji_table()[1].0 =~= seq!['\u{2B50}']);
    assert(emoji_table()[1].1 =~= seq!['\u{2605}']);
    assert(emoji_table()[2].0 =~= seq!['\u{1F3C6}']);
    assert(emoji_table()[2].1 =~= seq!['\u{2605}']);
    assert(emoji_table()[3].0 =~= seq!['\u{274C}']);
    assert(emoji_table()[3].1 =~= seq!['\u{D7}']);
    assert(emoji_table()[4].0 =~= seq!['\u{2715}']);
    assert(emoji_table()[4].1 =~= seq!['\u{D7}']);
    assert(emoji_table()[5].0 =~= seq!['\u{1F480}']);
    assert(emoji_table()[5].1 =~= seq!['\u{D7}']);
    assert(emoji_table()[6].0 =~= seq!['\u{2714}', '\u{FE0F}']);
    assert(emoji_table()[6].1 =~= seq!['\u{221A}']);
    assert(emoji_table()[7].0 =~= seq!['\u{2714}']);
    assert(emoji_table()[7].1 =~= seq!['\u{221A}']);
    assert(emoji_table()[8].0 =~= seq!['\u{26A1}']);
    assert(emoji_table()[8].1 =~= seq!['\u{25C6}']);
    assert(emoji_table()[9].0 =~= seq!['\u{26A0}', '\u{FE0F}']);
    assert(emoji_table()[9].1 =~= seq!['\u{25C6}']);
    assert(emoji_table()[10].0 =~= seq!['\u{26A0}']);
    assert(emoji_table()[10].1 =~= seq!['\u{25C6}']);
    assert(emoji_table()[11].0 =~= seq!['\u{23F3}']);
    assert(emoji_table()[11].1 =~= seq!['\u{25CE}']);
    assert(emoji_table()[12].0 =~= seq!['\u{2139}', '\u{FE0F}']);
    assert(emoji_table()[12].1 =~= seq!['\u{25CE}']);
    assert(emoji_table()[13].0 =~= seq!['\u{2139}']);
    assert(emoji_table()[13].1 =~= seq!['\u{25CE}']);
    assert(emoji_table()[14].0 =~= seq!['\u{2B05}', '\u{FE0F}']);
    assert(emoji_table()[14].1 =~= seq!['\u{2190}']);
    assert(emoji_table()[15].0 =~= seq!['\u{2B05}']);
    assert(emoji_table()[15].1 =~= seq!['\u{2190}']);
    assert(emoji_table()[16].0 =~= seq!['\u{27A1}', '\u{FE0F}']);
    assert(emoji_table()[16].1 =~= seq!['\u{2192}']);
    assert(emoji_table()[17].0 =~= seq!['\u{27A1}']);
    assert(emoji_table()[17].1 =~= seq!['\u{2192}']);
    assert(emoji_table()[18].0 =~= seq!['\u{2B06}', '\u{FE0F}']);
    assert(emoji_table()[18].1 =~= seq!['\u{2191}']);
    assert(emoji_table()[19].0 =~= seq!['\u{2B06}']);
    assert(emoji_table()[19].1 =~= seq!['\u{2191}']);
    assert(emoji_table()[20].0 =~= seq!['\u{2B07}', '\u{FE0F}']);
    assert(emoji_table()[20].1 =~= seq!['\u{2193}']);
    assert(emoji_table()[21].0 =~= seq!['\u{2B07}']);
    assert(emoji_table()[21].1 =~= seq!['\u{2193}']);
    assert(emoji_table()[22].0 =~= seq!['\u{25C0}', '\u{FE0F}']);
    assert(emoji_table()[22].1 =~= seq!['\u{25C0}']);
    assert(emoji_table()[23].0 =~= seq!['\u{25B6}', '\u{FE0F}']);
    assert(emoji_table()[23].1 =~= seq!['\u{25B6}']);
    assert(emoji_table()[24].0 =~= seq!['\u{2795}']);
    assert(emoji_table()[24].1 =~= seq!['\u{2B}']);
    assert(emoji_table()[25].0 =~= seq!['\u{2796}']);
    assert(emoji_table()[25].1 =~= seq!['\u{2212}']);
    assert(emoji_table()[26].0 =~= seq!['\u{1F534}']);
    assert(emoji_table()[26].1 =~= seq!['\u{25CF}']);
    assert(emoji_table()[27].0 =~= seq!['\u{26AA}']);
    assert(emoji_table()[27].1 =~= seq!['\u{25CB}']);
    assert(emoji_table()[28].0 =~= seq!['\u{1F44D}']);
    assert(emoji_table()[28].1 =~= seq!['\u{221A}']);
    assert(emoji_table()[29].0 =~= seq!['\u{1F44E}']);
    assert(emoji_table()[29].1 =~= seq!['\u{D7}']);
    assert(emoji_table()[30].0 =~= seq!['\u{1F4A1}']);
    assert(emoji_table()[30].1 =~= seq!['\u{25CE}']);
    assert(emoji_table()[31].0 =~= seq!['\u{1F3AF}']);
    assert(emoji_table()[31].1 =~= seq!['\u{2605}']);
    assert(emoji_table()[32].0 =~= seq!['\u{1F4CC}']);
    assert(emoji_table()[32].1 =~= seq!['\u{2022}']);
    assert(emoji_table()[33].0 =~= seq!['\u{1F525}']);
    assert(emoji_table()[33].1 =~= seq!['\u{25C6}']);
    assert(emoji_table()[34].0 =~= seq!['\u{1F4AA}']);
    assert(emoji_table()[34].1 =~= seq!['\u{2605}']);
    assert(emoji_table()[35].0 =~= seq!['\u{1F440}']);
    assert(emoji_table()[35].1 =~= seq!['\u{25CE}']);
    assert forall|i: int|
        0 <= i < 36 implies short_pattern(#[trigger] emoji_table()[i].0) && emoji_table()[i].1.len() == 1
            && replacement_char(emoji_table()[i].1[0]) && pattern_head(emoji_table()[i].0[0]) && (
        emoji_table()[i].1[0] == '\u{25C0}' ==> i == 22) && (emoji_table()[i].1[0] == '\u{25B6}' ==> i == 23) && (
        emoji_table()[i].0[0] == '\u{25C0}' ==> i == 22) && (emoji_table()[i].0[0] == '\u{25B6}' ==> i == 23) by {
        if i == 0 {
        } else if i == 1 {
        } else if i == 2 {
        } else if i == 3 {
        } else if i == 4 {
        } else if i == 5 {
        } else if i == 6 {
        } else if i == 7 {
        } else if i == 8 {
        } else if i == 9 {
        } else if i == 10 {
        } else if i == 11 {
        } else if i == 12 {
        } else if i == 13 {
        } else if i == 14 {
        } else if i == 15 {
        } else if i == 16 {
        } else if i == 17 {
        } else if i == 18 {
        } else if i == 19 {
        } else if i == 20 {
        } else if i == 21 {
        } else if i == 22 {
        } else if i == 23 {
        } else if i == 24 {
        } else if i == 25 {
        } else if i == 26 {
        } else if i == 27 {
        } else if i == 28 {
        } else if i == 29 {
        } else if i == 30 {
        } else if i == 31 {
        } else if i == 32 {
        } else if i == 33 {
        } else if i == 34 {
        } else if i == 35 {
        }
    }
}

/// Only the two triangles are both a replacement symbol and the start of an emoji.
proof fn lemma_heads_and_symbols(c: char)
    requires
        replacement_char(c),
        pattern_head(c),
    ensures
        c == '\u{25C0}' || c == '\u{25B6}',
{
}

/// The first character of a replacement's result: the replacement's own when the pattern
/// stands at the start, else the text's.
proof fn lemma_replace_head(s: Seq<char>, p: Seq<char>, r: Seq<char>)
    requires
        s.len() > 0,
        p.len() > 0,
        r.len() == 1,
    ensures
        replace_all(s, p, r).len() > 0,
        replace_all(s, p, r)[0] == (if matches_at(s, p, 0) {
            r[0]
        } else {
            s[0]
        }),
        !matches_at(s, p, 0) ==> replace_all(s, p, r) == seq![s[0]] + replace_all(s.drop_first(), p, r),
{
}

/// Replacing a short pattern by one symbol leaves no occurrence of the short pattern `q`
/// when the symbol is neither the first character of `q` nor the variation selector, and
/// `q` is the pattern itself or did not occur before.
proof fn lemma_step_free(s: Seq<char>, p: Seq<char>, r: Seq<char>, q: Seq<char>)
    requires
        short_pattern(p),
        short_pattern(q),
        r.len() == 1,
        r[0] != q[0],
        r[0] != variation_selector(),
        q == p || free_of(s, q),
    ensures
        free_of(replace_all(s, p, r), q),
    decreases s.len(),
{
    let out = replace_all(s, p, r);
    if s.len() == 0 {
        return;
    }
    if matches_at(s, p, 0) {
        let s1 = s.skip(p.len() as int);
        if q != p {
            lemma_free_suffix(s, q, p.len() as int);
        }
        lemma_step_free(s1, p, r, q);
        let rest = replace_all(s1, p, r);
        assert(out == r + rest);
        assert forall|i: int| !#[trigger] matches_at(out, q, i) by {
            if matches_at(out, q, i) {
                if i == 0 {
                    assert(out.subrange(0, q.len() as int)[0] == out[0]);
                } else {
                    lemma_match_in_tail(r, rest, q, i);
                }
            }
        }
    } else {
        let s1 = s.drop_first();
        if q != p {
            lemma_free_suffix(s, q, 1);
            assert(s.skip(1) =~= s1);
        }
        lemma_step_free(s1, p, r, q);
        let rest = replace_all(s1, p, r);
        assert(out == seq![s[0]] + rest);
        assert forall|i: int| !#[trigger] matches_at(out, q, i) by {
            if matches_at(out, q, i) {
                if i == 0 {
                    assert(out.subrange(0, q.len() as int)[0] == out[0]);
                    if q.len() == 1 {
                        assert(s.subrange(0, 1) =~= q);
                        assert(matches_at(s, q, 0));
                    } else {
                        assert(out.subrange(0, 2)[1] == out[1]);
                        assert(s1.len() > 0);
                        lemma_replace_head(s1, p, r);
                        assert(s.subrange(0, 2) =~= q);
                        assert(matches_at(s, q, 0));
                    }
                } else {
                    lemma_match_in_tail(seq![s[0]], rest, q, i);
                }
            }
        }
    }
}

/// Replacing a character and the variation selector by the character alone leaves no
/// occurrence of the pattern when the text never has the character followed by two
/// variation selectors.
proof fn lemma_step_free_self(s: Seq<char>, p: Seq<char>, r: Seq<char>)
    requires
        p.len() == 2,
        p[1] == variation_selector(),
        p[0] != variation_selector(),
        r == seq![p[0]],
        free_of(s, doubled_selector(p[0])),
    ensures
        free_of(replace_all(s, p, r), p),
    decreases s.len(),
{
    let out = replace_all(s, p, r);
    let t = doubled_selector(p[0]);
    if s.len() == 0 {
        return;
    }
    if matches_at(s, p, 0) {
        let s1 = s.skip(2);
        lemma_free_suffix(s, t, 2);
        lemma_step_free_self(s1, p, r);
        let rest = replace_all(s1, p, r);
        assert(out == r + rest);
        assert forall|i: int| !#[trigger] matches_at(out, p, i) by {
            if matches_at(out, p, i) {
                if i == 0 {
                    assert(out.subrange(0, 2)[1] == out[1]);
                    assert(s1.len() > 0);
                    lemma_replace_head(s1, p, r);
                    assert(s.subrange(0, 2)[1] == s[1]);
                    assert(s.subrange(0, 3) =~= t);
                    assert(matches_at(s, t, 0));
                } else {
                    lemma_match_in_tail(r, rest, p, i);
                }
            }
        }
    } else {
        let s1 = s.drop_first();
        lemma_free_suffix(s, t, 1);
        assert(s.skip(1) =~= s1);
        lemma_step_free_self(s1, p, r);
        let rest = replace_all(s1, p, r);
        assert(out == seq![s[0]] + rest);
        assert forall|i: int| !#[trigger] matches_at(out, p, i) by {
            if matches_at(out, p, i) {
                if i == 0 {
                    assert(out.subrange(0, 2)[0] == out[0]);
                    assert(out.subrange(0, 2)[1] == out[1]);
                    assert(s1.len() > 0);
                    lemma_replace_head(s1, p, r);
                    assert(s.subrange(0, 2) =~= p);
                } else {
                    lemma_match_in_tail(seq![s[0]], rest, p, i);
                }
            }
        }
    }
}

/// A replacement by a symbol that is neither `t`'s first character nor the variation
/// selector creates no character followed by two variation selectors.
proof fn lemma_step_keeps_doubled(s: Seq<char>, p: Seq<char>, r: Seq<char>, c: char)
    requires
        short_pattern(p),
        r.len() == 1,
        r[0] != c,
        r[0] != variation_selector(),
        free_of(s, doubled_selector(c)),
    ensures
        free_of(replace_all(s, p, r), doubled_selector(c)),
    decreases s.len(),
{
    let out = replace_all(s, p, r);
    let t = doubled_selector(c);
    if s.len() == 0 {
        return;
    }
    if matches_at(s, p, 0) {
        let s1 = s.skip(p.len() as int);
        lemma_free_suffix(s, t, p.len() as int);
        lemma_step_keeps_doubled(s1, p, r, c);
        let rest = replace_all(s1, p, r);
        assert(out == r + rest);
        assert forall|i: int| !#[trigger] matches_at(out, t, i) by {
            if matches_at(out, t, i) {
                if i == 0 {
                    assert(out.subrange(0, 3)[0] == out[0]);
                } else {
                    lemma_match_in_tail(r, rest, t, i);
                }
            }
        }
    } else {
        let s1 = s.drop_first();
        lemma_free_suffix(s, t, 1);
        assert(s.skip(1) =~= s1);
        lemma_step_keeps_doubled(s1, p, r, c);
        let rest = replace_all(s1, p, r);
        assert(out == seq![s[0]] + rest);
        assert forall|i: int| !#[trigger] matches_at(out, t, i) by {
            if matches_at(out, t, i) {
                if i == 0 {
                    assert(out.subrange(0, 3)[0] == out[0]);
                    assert(out.subrange(0, 3)[1] == out[1]);
                    assert(out.subrange(0, 3)[2] == out[2]);
                    assert(s1.len() > 0);
                    lemma_replace_head(s1, p, r);
                    let s2 = s1.drop_first();
                    assert(s2.len() > 0);
                    lemma_replace_head(s2, p, r);
                    assert(s.subrange(0, 3) =~= t);
                    assert(matches_at(s, t, 0));
                } else {
                    lemma_match_in_tail(seq![s[0]], rest, t, i);
                }
            }
        }
    }
}

/// The replacements from entry `i` on leave none of the table's emoji, when the text is
/// already free of the emoji of the entries before `i` and, before the entries of the
/// triangles, has no triangle followed by two variation selectors.
proof fn lemma_apply_clean(s: Seq<char>, i: int)
    requires
        0 <= i <= 36,
        forall|j: int| 0 <= j < i ==> free_of(s, #[trigger] emoji_table()[j].0),
        i <= 22 ==> free_of(s, doubled_selector('\u{25C0}')),
        i <= 23 ==> free_of(s, doubled_selector('\u{25B6}')),
    ensures
        forall|j: int| 0 <= j < 36 ==> free_of(apply_replacements(s, emoji_table(), i), #[trigger] emoji_table()[j].0),
    decreases 36 - i,
{
    lemma_table_shape();
    if i < 36 {
        let p = emoji_table()[i].0;
        let r = emoji_table()[i].1;
        let s2 = replace_all(s, p, r);
        assert(r[0] != variation_selector());
        assert forall|j: int| 0 <= j < i + 1 implies free_of(s2, #[trigger] emoji_table()[j].0) by {
            let q = emoji_table()[j].0;
            if j < i {
                if r[0] == q[0] {
                    lemma_heads_and_symbols(r[0]);
                }
                lemma_step_free(s, p, r, q);
            } else if i == 22 || i == 23 {
                lemma_step_free_self(s, p, r);
            } else {
                if r[0] == p[0] {
                    lemma_heads_and_symbols(r[0]);
                }
                lemma_step_free(s, p, r, p);
            }
        }
        if i < 22 {
            lemma_step_keeps_doubled(s, p, r, '\u{25C0}');
        }
        if i < 23 {
            lemma_step_keeps_doubled(s, p, r, '\u{25B6}');
        }
        lemma_apply_clean(s2, i + 1);
    }
}

/// The replacements from entry `i` on change nothing in a text free of every emoji of the
/// table.
proof fn lemma_apply_absent(s: Seq<char>, i: int)
    requires
        0 <= i <= 36,
        forall|j: int| 0 <= j < 36 ==> free_of(s, #[trigger] emoji_table()[j].0),
    ensures
        apply_replacements(s, emoji_table(), i) == s,
    decreases 36 - i,
{
    lemma_table_shape();
    if i < 36 {
        lemma_replace_absent(s, emoji_table()[i].0, emoji_table()[i].1);
        lemma_apply_absent(s, i + 1);
    }
}

/// Sanitized text holds none of the table's emoji, and sanitizing it again changes nothing,
/// when the text never has a triangle (U+25C0 or U+25B6) followed by two variation selectors.
pub proof fn law_sanitize_clean(s: Seq<char>)
    requires
        free_of(s, doubled_selector('\u{25C0}')),
        free_of(s, doubled_selector('\u{25B6}')),
    ensures
        forall|j: int| 0 <= j < emoji_table().len() ==> free_of(spec_sanitize(s), #[trigger] emoji_table()[j].0),
        spec_sanitize(spec_sanitize(s)) == spec_sanitize(s),
{
    lemma_table_shape();
    lemma_apply_clean(s, 0);
    lemma_apply_absent(spec_sanitize(s), 0);
}

/// The icon of a grade.
pub open spec fn spec_evaluation_icon(e: Seq<char>) -> Seq<char> {
    if e == "好"@ || e == "优"@ || e == "excellent"@ || e == "good"@ {
        STAR@
    } else if e == "中"@ || e == "average"@ || e == "fair"@ {
        INFO@
    } else if e == "差"@ || e == "poor"@ || e == "bad"@ {
        WARNING@
    } else {
        BULLET@
    }
}

/// The icon of a key-moment kind given by name ("brilliant", "mistake", "turning_point");
/// the information symbol for any other name.
pub fn moment_type_icon(moment_type: &str) -> (r: &'static str)
    ensures
        r@ == spec_moment_type_icon(moment_type@),
{
    if str_eq(moment_type, "brilliant") {
        BRILLIANT
    } else if str_eq(moment_type, "mistake") {
        MISTAKE
    } else if str_eq(moment_type, "turning_point") {
        TURNING_POINT
    } else {
        INFO
    }
}

/// The icon of a grade: a star for good grades, the information symbol for average ones, a
/// warning for poor ones and a bullet otherwise.
pub fn evaluation_icon(evaluation: &str) -> (r: &'static str)
    ensures
        r@ == spec_evaluation_icon(evaluation@),
{
    if str_eq(evaluation, "好") || str_eq(evaluation, "优") || str_eq(evaluation, "excellent")
        || str_eq(evaluation, "good") {
        STAR
    } else if str_eq(evaluation, "中") || str_eq(evaluation, "average") || str_eq(evaluation, "fair") {
        INFO
    } else if str_eq(evaluation, "差") || str_eq(evaluation, "poor") || str_eq(evaluation, "bad") {
        WARNING
    } else {
        BULLET
    }
}

/// Whether two strings have the same characters.
pub(crate) fn str_eq(a: &str, b: &str) -> (r: bool)
    ensures
        r == (a@ == b@),
{
    let x = chars_of(a);
    let y = chars_of(b);
    if x.len() != y.len() {
        return false;
    }
    let mut i: usize = 0;
    while i < x.len()
        invariant
            i <= x@.len(),
            x@.len() == y@.len(),
            x@ == a@,
            y@ == b@,
            forall|k: int| 0 <= k < i ==> x@[k] == y@[k],
        decreases x@.len() - i,
    {
        if x[i] != y[i] {
            assert(a@[i as int] != b@[i as int]);
            return false;
        }
        i = i + 1;
    }
    assert(x@ =~= y@);
    true
}

/// Replaces emoji that the UI font cannot show by font-safe symbols.
pub fn sanitize(text: &str) -> (r: String)
    ensures
        r@ == spec_sanitize(text@),
{
    let table = emoji_replacements();
    let mut result = chars_of(text);
    let mut i: usize = 0;
    while i < table.len()
        invariant
            i <= table@.len(),
            table@.len() == emoji_table().len(),
            forall|k: int| 0 <= k < table@.len() ==> (#[trigger] table@[k]).0@ == emoji_table()[k].0 && table@[k].1@ == emoji_table()[k].1,
            forall|k: int| 0 <= k < table@.len() ==> (#[trigger] table@[k]).0@.len() > 0,
            apply_replacements(result@, emoji_table(), i as int) == spec_sanitize(text@),
        decreases table@.len() - i,
    {
        let (emoji, replacement) = table[i];
        let pat = chars_of(emoji);
        let rep = chars_of(replacement);
        result = replace_chars(&result, &pat, &rep);
        i = i + 1;
    }
    string_of(&result)
}

/// Same as `sanitize`, taking the string by value.
pub fn sanitize_owned(text: String) -> (r: String)
    ensures
        r@ == spec_sanitize(text@),
{
    sanitize(text.as_str())
}

/// The texts of a game review.
pub struct AnalysisText {
    pub opening_review: OpeningReview,
    pub key_moments: Vec<KeyMoment>,
    pub endgame_review: EndgameReview,
    pub weaknesses: Weaknesses,
    pub suggestions: Suggestions,
    /// The overall summary.
    pub summary: String,
}

/// Every string of `v` sanitized.
fn sanitize_all(v: Vec<String>) -> (r: Vec<String>)
    ensures
        r@.len() == v@.len(),
        forall|i: int| 0 <= i < v@.len() ==> (#[trigger] r@[i])@ == spec_sanitize(v@[i]@),
{
    let mut r: Vec<String> = Vec::new();
    let mut i: usize = 0;
    while i < v.len()
        invariant
            i <= v@.len(),
            r@.len() == i,
            forall|k: int| 0 <= k < i ==> (#[trigger] r@[k])@ == spec_sanitize(v@[k]@),
        decreases v@.len() - i,
    {
        r.push(sanitize(v[i].as_str()));
        i = i + 1;
    }
    r
}

/// Sanitizes every text of a review: the opening name, grades and comments, the notation and
/// analysis of each key moment, all weaknesses and suggestions, and the summary.
pub fn sanitize_analysis(analysis: AnalysisText) -> (r: AnalysisText)
    ensures
        r.opening_review.name is Some == analysis.opening_review.name is Some,
        r.opening_review.name matches Some(n) ==> n@ == spec_sanitize(analysis.opening_review.name->0@),
        r.opening_review.evaluation@ == spec_sanitize(analysis.opening_review.evaluation@),
        r.opening_review.comment@ == spec_sanitize(analysis.opening_review.comment@),
        r.key_moments@.len() == analysis.key_moments@.len(),
        forall|i: int| 0 <= i < r.key_moments@.len() ==> {
            &&& (#[trigger] r.key_moments@[i]).move_notation@ == spec_sanitize(analysis.key_moments@[i].move_notation@)
            &&& r.key_moments@[i].analysis@ == spec_sanitize(analysis.key_moments@[i].analysis@)
            &&& r.key_moments@[i].move_number == analysis.key_moments@[i].move_number
            &&& r.key_moments@[i].side == analysis.key_moments@[i].side
            &&& r.key_moments@[i].moment_type == analysis.key_moments@[i].moment_type
        },
        r.endgame_review.evaluation@ == spec_sanitize(analysis.endgame_review.evaluation@),
        r.endgame_review.comment@ == spec_sanitize(analysis.endgame_review.comment@),
        r.suggestions.red@.len() == analysis.suggestions.red@.len(),
        forall|i: int| 0 <= i < r.suggestions.red@.len() ==> (#[trigger] r.suggestions.red@[i])@ == spec_sanitize(analysis.suggestions.red@[i]@),
        r.suggestions.black@.len() == analysis.suggestions.black@.len(),
        forall|i: int| 0 <= i < r.suggestions.black@.len() ==> (#[trigger] r.suggestions.black@[i])@ == spec_sanitize(analysis.suggestions.black@[i]@),
        r.weaknesses.red@.len() == analysis.weaknesses.red@.len(),
        forall|i: int| 0 <= i < r.weaknesses.red@.len() ==> (#[trigger] r.weaknesses.red@[i])@ == spec_sanitize(analysis.weaknesses.red@[i]@),
        r.weaknesses.black@.len() == analysis.weaknesses.black@.len(),
        forall|i: int| 0 <= i < r.weaknesses.black@.len() ==> (#[trigger] r.weaknesses.black@[i])@ == spec_sanitize(analysis.weaknesses.black@[i]@),
        r.summary@ == spec_sanitize(analysis.summary@),
{
    let AnalysisText { opening_review, key_moments, endgame_review, weaknesses, suggestions, summary } = analysis;
    let name = match &opening_review.name {
        Some(n) => Some(sanitize(n.as_str())),
        None => None,
    };
    let opening_review = OpeningReview {
        name,
        evaluation: sanitize(opening_review.evaluation.as_str()),
        comment: sanitize(opening_review.comment.as_str()),
    };
    let mut moments: Vec<KeyMoment> = Vec::new();
    let mut i: usize = 0;
    while i < key_moments.len()
        invariant
            i <= key_moments@.len(),
            moments@.len() == i,
            forall|k: int| 0 <= k < i ==> {
                &&& (#[trigger] moments@[k]).move_notation@ == spec_sanitize(key_moments@[k].move_notation@)
                &&& moments@[k].analysis@ == spec_sanitize(key_moments@[k].analysis@)
                &&& moments@[k].move_number == key_moments@[k].move_number
                &&& moments@[k].side == key_moments@[k].side
                &&& moments@[k].moment_type == key_moments@[k].moment_type
            },
        decreases key_moments@.len() - i,
    {
        let m = &key_moments[i];
        moments.push(KeyMoment {
            move_number: m.move_number,
            side: m.side,
            move_notation: sanitize(m.move_notation.as_str()),
            moment_type: m.moment_type,
            analysis: sanitize(m.analysis.as_str()),
        });
        i = i + 1;
    }
    let endgame_review = EndgameReview {
        evaluation: sanitize(endgame_review.evaluation.as_str()),
        comment: sanitize(endgame_review.comment.as_str()),
    };
    let suggestions = Suggestions {
        red: sanitize_all(suggestions.red),
        black: sanitize_all(suggestions.black),
    };
    let weaknesses = Weaknesses {
        red: sanitize_all(weaknesses.red),
        black: sanitize_all(weaknesses.black),
    };
    AnalysisText {
        opening_review,
        key_moments: moments,
        endgame_review,
        weaknesses,
        suggestions,
        summary: sanitize(summary.as_str()),
    }
}

} // verus!
