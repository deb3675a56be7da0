//! Laws of the configuration editor: switching between the form and the raw
//! text keeps what the form shows.
use vstd::prelude::*;

use super::config_edit::{
    apply_fields, config_rendered, config_to_form, config_to_raw, joined, raw_from_text, raw_text,
    ConfigEditView, EditMode,
};
use crate::config::ini::{get_spec, parse_doc, parse_line, render_doc, render_line, IniLine};
use crate::config::laws::{
    has_crlf, law_blank_value_without_entry_keeps_doc, law_get_after_set, law_parse_render_round_trip,
    law_set_preserves_other_keys, lemma_lines_of_render, line_round_trips, same_key,
};
use crate::config::ConfigKey;
use crate::text::{lemma_pos_of, lemma_trim_idempotent, lines, pos_of, strip_cr, trim};

verus! {

/// Whether no two fields can name the same entry.
pub open spec fn distinct_field_keys(fs: Seq<(ConfigKey, Seq<char>)>) -> bool {
    forall|i: int, j: int|
        0 <= i < fs.len() && 0 <= j < fs.len() && i != j ==> !same_key(
            #[trigger] fs[i].0.section@,
            fs[i].0.key@,
            #[trigger] fs[j].0.section@,
            fs[j].0.key@,
        )
}

proof fn lemma_joined_render(d: Seq<IniLine>)
    requires
        d.len() > 0,
    ensures
        joined(d.map_values(|l: IniLine| render_line(l))) + seq!['\n'] == render_doc(d),
    decreases d.len(),
{
    let ls = d.map_values(|l: IniLine| render_line(l));
    assert(render_doc(Seq::<IniLine>::empty()) =~= Seq::<char>::empty());
    if d.len() == 1 {
        assert(d.drop_last() =~= Seq::<IniLine>::empty());
        assert(render_doc(d) =~= render_line(d[0]) + seq!['\n']);
    } else {
        assert(ls.drop_last() =~= d.drop_last().map_values(|l: IniLine| render_line(l)));
        lemma_joined_render(d.drop_last());
        assert(ls.last() == render_line(d.last()));
        assert(joined(ls) + seq!['\n'] =~= render_doc(d));
    }
}

/// Writing the fields into a document leaves a key that none of them names
/// as it was.
proof fn lemma_apply_fields_other(
    doc: Seq<IniLine>,
    fs: Seq<(ConfigKey, Seq<char>)>,
    section: Seq<char>,
    key: Seq<char>,
)
    requires
        forall|i: int| 0 <= i < fs.len() ==> !same_key(#[trigger] fs[i].0.section@, fs[i].0.key@, section, key),
    ensures
        get_spec(apply_fields(doc, fs), section, key) == get_spec(doc, section, key),
    decreases fs.len(),
{
    if fs.len() > 0 {
        let f = fs.last();
        let rest = fs.drop_last();
        assert forall|i: int| 0 <= i < rest.len() implies !same_key(#[trigger] rest[i].0.section@, rest[i].0.key@, section, key) by {
            assert(rest[i] == fs[i]);
        }
        lemma_apply_fields_other(doc, rest, section, key);
        assert(!same_key(fs[fs.len() - 1].0.section@, fs[fs.len() - 1].0.key@, section, key));
        law_set_preserves_other_keys(apply_fields(doc, rest), f.0.section@, f.0.key@, trim(f.1), section, key);
    }
}

/// What a field's key holds once all the fields are written: its trimmed
/// value when it is not blank; nothing when it is blank and the document had
/// no entry for it.
proof fn lemma_apply_fields_own(doc: Seq<IniLine>, fs: Seq<(ConfigKey, Seq<char>)>, j: int)
    requires
        distinct_field_keys(fs),
        0 <= j < fs.len(),
    ensures
        trim(fs[j].1).len() > 0 ==> get_spec(apply_fields(doc, fs), fs[j].0.section@, fs[j].0.key@)
            == Some(trim(fs[j].1)),
        trim(fs[j].1).len() == 0 && get_spec(doc, fs[j].0.section@, fs[j].0.key@).is_none()
            ==> get_spec(apply_fields(doc, fs), fs[j].0.section@, fs[j].0.key@).is_none(),
    decreases fs.len(),
{
    let n = fs.len() - 1;
    let f = fs[n];
    let rest = fs.drop_last();
    let prev = apply_fields(doc, rest);
    let (s, k) = (fs[j].0.section@, fs[j].0.key@);
    lemma_trim_idempotent(f.1);
    assert(fs.last() == f);
    if j == n {
        if trim(f.1).len() > 0 {
            law_get_after_set(prev, s, k, trim(f.1));
        } else {
            assert forall|i: int| 0 <= i < rest.len() implies !same_key(#[trigger] rest[i].0.section@, rest[i].0.key@, s, k) by {
                assert(rest[i] == fs[i]);
                assert(!same_key(fs[i].0.section@, fs[i].0.key@, fs[n].0.section@, fs[n].0.key@));
            }
            lemma_apply_fields_other(doc, rest, s, k);
            if get_spec(doc, s, k).is_none() {
                law_blank_value_without_entry_keeps_doc(prev, s, k, trim(f.1));
            }
        }
    } else {
        assert(distinct_field_keys(rest)) by {
            assert forall|a: int, b: int|
                0 <= a < rest.len() && 0 <= b < rest.len() && a != b implies !same_key(
                    #[trigger] rest[a].0.section@,
                    rest[a].0.key@,
                    #[trigger] rest[b].0.section@,
                    rest[b].0.key@,
                ) by {
                assert(rest[a] == fs[a]);
                assert(rest[b] == fs[b]);
            }
        }
        assert(rest[j] == fs[j]);
        lemma_apply_fields_own(doc, rest, j);
        assert(!same_key(fs[n].0.section@, fs[n].0.key@, fs[j].0.section@, fs[j].0.key@));
        law_set_preserves_other_keys(prev, f.0.section@, f.0.key@, trim(f.1), s, k);
    }
}

/// The document read back from the raw text that the form writes holds, for
/// every key, what the written document holds.
proof fn lemma_raw_round_trip_reads_same(d: Seq<IniLine>, section: Seq<char>, key: Seq<char>)
    requires
        forall|i: int| 0 <= i < d.len() ==> line_round_trips(#[trigger] d[i]),
    ensures
        get_spec(parse_doc(raw_text(raw_from_text(render_doc(d)))), section, key) == get_spec(
            d,
            section,
            key,
        ),
{
    if d.len() > 0 {
        lemma_lines_of_render(d);
        assert(lines(render_doc(d)).len() > 0);
        lemma_joined_render(d);
        law_parse_render_round_trip(d);
    } else {
        assert(render_doc(d) =~= Seq::<char>::empty());
        let text = raw_text(raw_from_text(render_doc(d)));
        assert(joined(seq![Seq::<char>::empty()]) =~= Seq::<char>::empty());
        assert(text =~= seq!['\n']);
        assert(text.take(0) =~= Seq::<char>::empty());
        assert(text.skip(1) =~= Seq::<char>::empty());
        assert(lines(text) =~= seq![Seq::<char>::empty()]);
        let back = parse_doc(text);
        assert(back =~= seq![parse_line(Seq::<char>::empty())]);
        assert(get_spec(back, section, key).is_none());
        assert(get_spec(d, section, key).is_none());
    }
}

/// Switching the configuration editor from the form to the raw text and back
/// keeps every field: each non-blank field shows its value trimmed, and a
/// blank field whose key the document had no entry for stays blank. This holds
/// when no two fields name the same entry and every line of the document the
/// form writes is read back as it is written.
pub proof fn law_form_raw_form_keeps_values(s: ConfigEditView)
    requires
        distinct_field_keys(s.fields),
        forall|i: int|
            0 <= i < apply_fields(s.doc, s.fields).len() ==> line_round_trips(
                #[trigger] apply_fields(s.doc, s.fields)[i],
            ),
    ensures
        config_to_form(config_to_raw(s)).mode == EditMode::Form,
        config_to_form(config_to_raw(s)).fields.len() == s.fields.len(),
        forall|i: int|
            0 <= i < s.fields.len() ==> (#[trigger] config_to_form(config_to_raw(s)).fields[i]).0
                == s.fields[i].0,
        forall|i: int|
            0 <= i < s.fields.len() && trim(s.fields[i].1).len() > 0 ==> (
            #[trigger] config_to_form(config_to_raw(s)).fields[i]).1 == trim(s.fields[i].1),
        forall|i: int|
            0 <= i < s.fields.len() && trim(s.fields[i].1).len() == 0 && get_spec(
                s.doc,
                s.fields[i].0.section@,
                s.fields[i].0.key@,
            ).is_none() ==> (#[trigger] config_to_form(config_to_raw(s)).fields[i]).1
                == Seq::<char>::empty(),
{
    let d = apply_fields(s.doc, s.fields);
    let after = config_to_form(config_to_raw(s));
    assert forall|i: int| 0 <= i < s.fields.len() implies {
        &&& (#[trigger] after.fields[i]).0 == s.fields[i].0
        &&& trim(s.fields[i].1).len() > 0 ==> after.fields[i].1 == trim(s.fields[i].1)
        &&& trim(s.fields[i].1).len() == 0 && get_spec(
            s.doc,
            s.fields[i].0.section@,
            s.fields[i].0.key@,
        ).is_none() ==> after.fields[i].1 == Seq::<char>::empty()
    } by {
        let k = s.fields[i].0;
        lemma_raw_round_trip_reads_same(d, k.section@, k.key@);
        lemma_apply_fields_own(s.doc, s.fields, i);
    }
}

proof fn lemma_joined_cons(a: Seq<char>, rest: Seq<Seq<char>>)
    requires
        rest.len() > 0,
    ensures
        joined(seq![a] + rest) == a + seq!['\n'] + joined(rest),
    decreases rest.len(),
{
    let all = seq![a] + rest;
    if rest.len() == 1 {
        assert(all.drop_last() =~= seq![a]);
        assert(all.last() == rest[0]);
        assert(rest.drop_last() =~= Seq::<Seq<char>>::empty());
        assert(joined(rest) == rest[0]);
        assert(joined(seq![a]) == a);
        assert(joined(all) =~= a + seq!['\n'] + joined(rest));
    } else {
        assert(all.drop_last() =~= seq![a] + rest.drop_last());
        assert(all.last() == rest.last());
        lemma_joined_cons(a, rest.drop_last());
        assert(joined(all) =~= a + seq!['\n'] + joined(rest));
    }
}

/// The raw editor gives back the text it was opened on, when that text ends
/// with a line break and uses `\n` line breaks (`\r\n` would come back as
/// `\n`).
pub proof fn law_raw_text_round_trip(text: Seq<char>)
    requires
        text.len() > 0,
        text.last() == '\n',
        !has_crlf(text),
    ensures
        raw_text(raw_from_text(text)) == text,
    decreases text.len(),
{
    let p = pos_of(text, '\n');
    lemma_pos_of(text, '\n');
    if p >= text.len() {
        assert(text[text.len() - 1] == '\n');
    }
    let head = text.take(p as int);
    let rest = text.skip((p + 1) as int);
    assert(strip_cr(head) == head) by {
        if head.len() > 0 && head.last() == '\r' {
            assert(text[p - 1] == '\r');
            assert(text[p as int] == '\n');
        }
    }
    assert(lines(text) == seq![head] + lines(rest));
    assert(text =~= head + seq!['\n'] + rest);
    if rest.len() == 0 {
        assert(lines(rest) =~= Seq::<Seq<char>>::empty());
        assert(lines(text) =~= seq![head]);
    } else {
        assert(!has_crlf(rest)) by {
            if has_crlf(rest) {
                let i = choose|i: int| 0 < i < rest.len() && rest[i] == '\n' && #[trigger] rest[i - 1] == '\r';
                assert(text[p + 1 + i] == rest[i]);
                assert(text[p + 1 + i - 1] == rest[i - 1]);
            }
        }
        assert(rest.last() == text.last());
        law_raw_text_round_trip(rest);
        assert(lines(rest).len() > 0);
        lemma_joined_cons(head, lines(rest));
    }
}

/// Switching the configuration editor from the form to the raw text does not
/// change what saving would write, when that text is not empty and uses `\n`
/// line breaks; the raw editor opens at its start.
pub proof fn law_to_raw_keeps_rendered(s: ConfigEditView)
    requires
        s.mode == EditMode::Form,
        render_doc(apply_fields(s.doc, s.fields)).len() > 0,
        !has_crlf(render_doc(apply_fields(s.doc, s.fields))),
    ensures
        config_rendered(config_to_raw(s)) == config_rendered(s),
        config_to_raw(s).mode == EditMode::Raw,
        config_to_raw(s).raw.row == 0,
        config_to_raw(s).raw.col == 0,
{
    law_raw_text_round_trip(render_doc(apply_fields(s.doc, s.fields)));
}

} // verus!
