//! Settings search: which sections a query matches.
//!
//! A query matches a section when, trimmed, it occurs in the section's
//! Japanese label, or occurs ASCII-case-insensitively in its English label.
//! An empty (or whitespace-only) query matches every section.  Both
//! languages are always searched, whatever the UI language.

use vstd::prelude::*;

use crate::lang::{Lang, Strings};
use crate::sections::SectionId;
use crate::state::AppState;
use crate::text::{
    code_seq, contains_keyed, eq_ignore_case, fold_seq, is_substring, occurs_at, trim, trim_str,
};

verus! {

/// Label of a section in a string table.
pub open spec fn label_in(strings: Strings, sid: SectionId) -> &'static str {
    match sid {
        SectionId::General => strings.section_general,
        SectionId::Appearance => strings.section_appearance,
        SectionId::Accessibility => strings.section_accessibility,
        SectionId::Ime => strings.section_ime,
        SectionId::Advanced => strings.section_advanced,
        SectionId::Widgets => strings.section_widgets,
    }
}

/// Does the (already trimmed, non-empty) query `q` match section `sid`?
pub open spec fn section_matches(sid: SectionId, q: Seq<char>) -> bool {
    ||| is_substring(code_seq(q), code_seq(label_in(Strings::ja_table(), sid)@))
    ||| is_substring(fold_seq(q), fold_seq(label_in(Strings::en_table(), sid)@))
}

/// `seq![sid]` when `keep`, empty otherwise.
pub open spec fn kept(sid: SectionId, keep: bool) -> Seq<SectionId> {
    if keep {
        seq![sid]
    } else {
        Seq::empty()
    }
}

/// All sections, in sidebar order.
pub open spec fn all_sections() -> Seq<SectionId> {
    seq![
        SectionId::General,
        SectionId::Appearance,
        SectionId::Accessibility,
        SectionId::Ime,
        SectionId::Advanced,
        SectionId::Widgets,
    ]
}

/// Sections matched by a query, in sidebar order.
pub open spec fn filter_spec(query: Seq<char>) -> Seq<SectionId> {
    let q = trim(query);
    if q.len() == 0 {
        all_sections()
    } else {
        kept(SectionId::General, section_matches(SectionId::General, q)) + kept(
            SectionId::Appearance,
            section_matches(SectionId::Appearance, q),
        ) + kept(SectionId::Accessibility, section_matches(SectionId::Accessibility, q)) + kept(
            SectionId::Ime,
            section_matches(SectionId::Ime, q),
        ) + kept(SectionId::Advanced, section_matches(SectionId::Advanced, q)) + kept(
            SectionId::Widgets,
            section_matches(SectionId::Widgets, q),
        )
    }
}

/// `(Japanese label, English label)` of a section.
pub fn label_pair(sid: SectionId, ja: &Strings, en: &Strings) -> (r: (&'static str, &'static str))
    ensures
        r.0 == label_in(*ja, sid),
        r.1 == label_in(*en, sid),
{
    match sid {
        SectionId::General => (ja.section_general, en.section_general),
        SectionId::Appearance => (ja.section_appearance, en.section_appearance),
        SectionId::Accessibility => (ja.section_accessibility, en.section_accessibility),
        SectionId::Ime => (ja.section_ime, en.section_ime),
        SectionId::Advanced => (ja.section_advanced, en.section_advanced),
        SectionId::Widgets => (ja.section_widgets, en.section_widgets),
    }
}

fn matches_section(sid: SectionId, q: &str, ja: &Strings, en: &Strings) -> (r: bool)
    requires
        *ja == Strings::ja_table(),
        *en == Strings::en_table(),
    ensures
        r == section_matches(sid, q@),
{
    let (ja_label, en_label) = label_pair(sid, ja, en);
    contains_keyed(ja_label, q, false) || contains_keyed(en_label, q, true)
}

/// Sections whose label matches `query` (Japanese substring, or English
/// substring ignoring ASCII case), in sidebar order; an empty or
/// whitespace-only query gives all sections.  `_strings` is not consulted:
/// both tables are always searched.
pub fn filter_sections(query: &str, _strings: &Strings) -> (r: Vec<SectionId>)
    ensures
        r@ == filter_spec(query@),
{
    let q = trim_str(query);
    let mut out: Vec<SectionId> = Vec::new();
    if q.unicode_len() == 0 {
        out.push(SectionId::General);
        out.push(SectionId::Appearance);
        out.push(SectionId::Accessibility);
        out.push(SectionId::Ime);
        out.push(SectionId::Advanced);
        out.push(SectionId::Widgets);
        assert(out@ =~= all_sections());
        return out;
    }
    let ja = Lang::Ja.strings();
    let en = Lang::En.strings();
    let ghost qs = q@;
    if matches_section(SectionId::General, q, &ja, &en) {
        out.push(SectionId::General);
    }
    assert(out@ =~= kept(SectionId::General, section_matches(SectionId::General, qs)));
    let ghost s1 = out@;
    if matches_section(SectionId::Appearance, q, &ja, &en) {
        out.push(SectionId::Appearance);
    }
    assert(out@ =~= s1 + kept(SectionId::Appearance, section_matches(SectionId::Appearance, qs)));
    let ghost s2 = out@;
    if matches_section(SectionId::Accessibility, q, &ja, &en) {
        out.push(SectionId::Accessibility);
    }
    assert(out@ =~= s2 + kept(
        SectionId::Accessibility,
        section_matches(SectionId::Accessibility, qs),
    ));
    let ghost s3 = out@;
    if matches_section(SectionId::Ime, q, &ja, &en) {
        out.push(SectionId::Ime);
    }
    assert(out@ =~= s3 + kept(SectionId::Ime, section_matches(SectionId::Ime, qs)));
    let ghost s4 = out@;
    if matches_section(SectionId::Advanced, q, &ja, &en) {
        out.push(SectionId::Advanced);
    }
    assert(out@ =~= s4 + kept(SectionId::Advanced, section_matches(SectionId::Advanced, qs)));
    let ghost s5 = out@;
    if matches_section(SectionId::Widgets, q, &ja, &en) {
        out.push(SectionId::Widgets);
    }
    assert(out@ =~= s5 + kept(SectionId::Widgets, section_matches(SectionId::Widgets, qs)));
    out
}

/// Search bar edit: keep the query as typed.  The query is not persisted,
/// so no save is requested.
pub fn apply_search_query_change(state: &mut AppState, text: &str)
    ensures
        final(state).search_query@ == text@,
        final(state).config == old(state).config,
        final(state).debouncer == old(state).debouncer,
        final(state).selected_section == old(state).selected_section,
        final(state).accent_picker_visible == old(state).accent_picker_visible,
        final(state).reset_confirm_visible == old(state).reset_confirm_visible,
        final(state).pending_reset == old(state).pending_reset,
        final(state).draft_accent_hex == old(state).draft_accent_hex,
{
    state.search_query = String::from_str(text);
}

// ── what a query matches ───────────────────────────────────────────────

/// Appending `kept(x, b)` adds `x` exactly when `b` holds.
proof fn lemma_contains_after_kept(a: Seq<SectionId>, x: SectionId, b: bool, y: SectionId)
    ensures
        (a + kept(x, b)).contains(y) <==> (a.contains(y) || (b && y == x)),
{
    if b {
        let p = a + kept(x, b);
        assert(p =~= a.push(x));
        if p.contains(y) {
            let j = choose|j: int| 0 <= j < p.len() && p[j] == y;
            if j < a.len() {
                assert(a[j] == y);
            }
        }
        if a.contains(y) {
            let j = choose|j: int| 0 <= j < a.len() && a[j] == y;
            assert(p[j] == y);
        }
        if y == x {
            assert(p[a.len() as int] == x);
        }
    } else {
        assert(a + kept(x, b) =~= a);
    }
}

/// Exact character match: `q` occurs in `label` at some position.
proof fn lemma_exact_occurrence(q: Seq<char>, label: Seq<char>)
    ensures
        is_substring(code_seq(q), code_seq(label)) <==> exists|i: int|
            0 <= i && i + q.len() <= label.len() && #[trigger] label.subrange(i, i + q.len()) == q,
{
    let n = q.len();
    if is_substring(code_seq(q), code_seq(label)) {
        let i = choose|i: int| occurs_at(code_seq(q), code_seq(label), i);
        assert forall|k: int| 0 <= k < n implies label.subrange(i, i + n)[k] == q[k] by {
            assert(code_seq(label).subrange(i, i + n)[k] == code_seq(q)[k]);
            assert(code_seq(label)[i + k] == label[i + k] as u32);
            assert(code_seq(q)[k] == q[k] as u32);
            assert(label.subrange(i, i + n)[k] == label[i + k]);
            let u = q[k] as u32;
            vstd::utf8::char_u32_cast(label[i + k], u);
            vstd::utf8::char_u32_cast(q[k], u);
        }
        assert(label.subrange(i, i + n) =~= q);
    }
    if exists|i: int| 0 <= i && i + n <= label.len() && #[trigger] label.subrange(i, i + n) == q {
        let i = choose|i: int|
            0 <= i && i + n <= label.len() && #[trigger] label.subrange(i, i + n) == q;
        assert forall|k: int| 0 <= k < n implies code_seq(label).subrange(i, i + n)[k] == code_seq(
            q,
        )[k] by {
            assert(label.subrange(i, i + n)[k] == q[k]);
        }
        assert(code_seq(label).subrange(i, i + n) =~= code_seq(q));
        assert(occurs_at(code_seq(q), code_seq(label), i));
    }
}

/// ASCII-case-insensitive match: some piece of `label` as long as `q`
/// equals `q` ignoring ASCII case.
proof fn lemma_folded_occurrence(q: Seq<char>, label: Seq<char>)
    ensures
        is_substring(fold_seq(q), fold_seq(label)) <==> exists|i: int|
            0 <= i && i + q.len() <= label.len() && eq_ignore_case(
                #[trigger] label.subrange(i, i + q.len()),
                q,
            ),
{
    let n = q.len();
    if is_substring(fold_seq(q), fold_seq(label)) {
        let i = choose|i: int| occurs_at(fold_seq(q), fold_seq(label), i);
        assert(fold_seq(label).subrange(i, i + n) =~= fold_seq(label.subrange(i, i + n)));
        assert(eq_ignore_case(label.subrange(i, i + n), q));
    }
    if exists|i: int|
        0 <= i && i + n <= label.len() && eq_ignore_case(#[trigger] label.subrange(i, i + n), q) {
        let i = choose|i: int|
            0 <= i && i + n <= label.len() && eq_ignore_case(
                #[trigger] label.subrange(i, i + n),
                q,
            );
        assert(fold_seq(label).subrange(i, i + n) =~= fold_seq(label.subrange(i, i + n)));
        assert(occurs_at(fold_seq(q), fold_seq(label), i));
    }
}

/// What a search finds: an empty (or whitespace-only) query finds every
/// section; otherwise a section is found exactly when the trimmed query
/// occurs, at any position, in its Japanese label, or occurs in its
/// English label ignoring ASCII case.
pub proof fn lemma_filter_finds_labels_containing_query(query: Seq<char>, sid: SectionId)
    ensures
        trim(query).len() == 0 ==> filter_spec(query).contains(sid),
        trim(query).len() > 0 ==> (filter_spec(query).contains(sid) <==> (
        (exists|i: int|
            0 <= i && i + trim(query).len() <= label_in(Strings::ja_table(), sid)@.len()
                && #[trigger] label_in(Strings::ja_table(), sid)@.subrange(
                i,
                i + trim(query).len(),
            ) == trim(query)) || (exists|i: int|
            0 <= i && i + trim(query).len() <= label_in(Strings::en_table(), sid)@.len()
                && eq_ignore_case(
                #[trigger] label_in(Strings::en_table(), sid)@.subrange(
                    i,
                    i + trim(query).len(),
                ),
                trim(query),
            )))),
{
    let q = trim(query);
    if q.len() == 0 {
        let all = all_sections();
        match sid {
            SectionId::General => assert(all[0] == sid),
            SectionId::Appearance => assert(all[1] == sid),
            SectionId::Accessibility => assert(all[2] == sid),
            SectionId::Ime => assert(all[3] == sid),
            SectionId::Advanced => assert(all[4] == sid),
            SectionId::Widgets => assert(all[5] == sid),
        }
    } else {
        let m1 = section_matches(SectionId::General, q);
        let m2 = section_matches(SectionId::Appearance, q);
        let m3 = section_matches(SectionId::Accessibility, q);
        let m4 = section_matches(SectionId::Ime, q);
        let m5 = section_matches(SectionId::Advanced, q);
        let m6 = section_matches(SectionId::Widgets, q);
        let e = Seq::<SectionId>::empty();
        let s1 = kept(SectionId::General, m1);
        assert(e + s1 =~= s1);
        lemma_contains_after_kept(e, SectionId::General, m1, sid);
        let s2 = s1 + kept(SectionId::Appearance, m2);
        lemma_contains_after_kept(s1, SectionId::Appearance, m2, sid);
        let s3 = s2 + kept(SectionId::Accessibility, m3);
        lemma_contains_after_kept(s2, SectionId::Accessibility, m3, sid);
        let s4 = s3 + kept(SectionId::Ime, m4);
        lemma_contains_after_kept(s3, SectionId::Ime, m4, sid);
        let s5 = s4 + kept(SectionId::Advanced, m5);
        lemma_contains_after_kept(s4, SectionId::Advanced, m5, sid);
        let s6 = s5 + kept(SectionId::Widgets, m6);
        lemma_contains_after_kept(s5, SectionId::Widgets, m6, sid);
        assert(filter_spec(query) == s6);
        assert(filter_spec(query).contains(sid) <==> section_matches(sid, q));
        lemma_exact_occurrence(q, label_in(Strings::ja_table(), sid)@);
        lemma_folded_occurrence(q, label_in(Strings::en_table(), sid)@);
    }
}

} // verus!
