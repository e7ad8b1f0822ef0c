//! The form dialogs for editing personas, characters, presets, system prompts and
//! worldbook entries: their fields and the rules on what may be typed.

use vstd::prelude::*;
use crate::fields::FieldDialog;
use crate::validation::FieldValidation;
use crate::selection::MAX_NAME_LENGTH;

verus! {

/// The name field (the first) is limited to `MAX_NAME_LENGTH` characters.
pub open spec fn name_rule() -> Seq<(usize, FieldValidation)> {
    seq![(0usize, FieldValidation::MaxLen(MAX_NAME_LENGTH))]
}

fn name_rules() -> (r: Vec<(usize, FieldValidation)>)
    ensures
        r@ == name_rule(),
{
    vec![(0, FieldValidation::MaxLen(MAX_NAME_LENGTH))]
}

/// What every editor built here has: the given title, labels, values, multi-line
/// fields and rules, no placeholder unless said, nothing locked, hidden, selecting
/// or separating, the first field selected.
pub open spec fn editor_shape(d: FieldDialog, title: &'static str, labels: Seq<&'static str>, values: Seq<String>, multiline: Seq<usize>, rules: Seq<(usize, FieldValidation)>) -> bool {
    &&& d.dialog_title() == title
    &&& d.label_seq() == labels
    &&& d.label_count() == labels.len()
    &&& d.vals() == values
    &&& d.multilines() == multiline
    &&& d.rules() == rules
    &&& d.locked().len() == 0 && d.hidden().len() == 0 && d.selectors().len() == 0 && d.separators().len() == 0
    &&& d.sel() == 0 && !d.in_line_edit() && !d.in_multiline()
}

/// The persona editor: name and persona text (multi-line).
pub fn open_persona_editor(values: Vec<String>) -> (d: FieldDialog)
    ensures
        editor_shape(d, " Edit Persona ", seq!["Name", "Persona"], values@, seq![1usize], name_rule()),
        d.booleans().len() == 0,
        d.placeholder_spec() is None,
{
    let labels: Vec<&'static str> = vec!["Name", "Persona"];
    let multiline: Vec<usize> = vec![1];
    let rules = name_rules();
    proof {
        assert(labels@ =~= seq!["Name", "Persona"]);
        assert(multiline@ =~= seq![1usize]);
        assert(rules@ =~= name_rule());
    }
    FieldDialog::new(" Edit Persona ", labels, values, multiline).with_validated_fields(rules)
}

/// The character editor: the card's eight fields, all but the name multi-line.
pub fn open_character_editor(values: Vec<String>) -> (d: FieldDialog)
    ensures
        editor_shape(d, " Edit Character ", seq!["Name", "Description", "Personality", "Scenario", "First Message",
            "Examples", "System Prompt", "Post-History"], values@, seq![1usize, 2, 3, 4, 5, 6, 7], name_rule()),
        d.booleans().len() == 0,
        d.placeholder_spec() is None,
{
    let labels: Vec<&'static str> = vec!["Name", "Description", "Personality", "Scenario", "First Message", "Examples", "System Prompt", "Post-History"];
    let multiline: Vec<usize> = vec![1, 2, 3, 4, 5, 6, 7];
    let rules = name_rules();
    proof {
        assert(labels@ =~= seq!["Name", "Description", "Personality", "Scenario", "First Message", "Examples", "System Prompt", "Post-History"]);
        assert(multiline@ =~= seq![1usize, 2, 3, 4, 5, 6, 7]);
        assert(rules@ =~= name_rule());
    }
    FieldDialog::new(" Edit Character ", labels, values, multiline).with_validated_fields(rules)
}

/// The template preset editor.
pub fn open_template_editor(values: Vec<String>) -> (d: FieldDialog)
    ensures
        editor_shape(d, " Edit Template Preset ", seq!["Name", "Story String", "Example Separator", "Chat Start"],
            values@, seq![1usize], name_rule()),
        d.booleans().len() == 0,
        d.placeholder_spec() is None,
{
    let labels: Vec<&'static str> = vec!["Name", "Story String", "Example Separator", "Chat Start"];
    let multiline: Vec<usize> = vec![1];
    let rules = name_rules();
    proof {
        assert(labels@ =~= seq!["Name", "Story String", "Example Separator", "Chat Start"]);
        assert(multiline@ =~= seq![1usize]);
        assert(rules@ =~= name_rule());
    }
    FieldDialog::new(" Edit Template Preset ", labels, values, multiline).with_validated_fields(rules)
}

/// The instruct preset editor; its last three fields are yes/no.
pub fn open_instruct_editor(values: Vec<String>) -> (d: FieldDialog)
    ensures
        editor_shape(d, " Edit Instruct Preset ", seq!["Name", "Input Sequence", "Output Sequence", "System Sequence",
            "Input Suffix", "Output Suffix", "System Suffix", "Stop Sequence", "Separator Sequence", "Wrap",
            "System Same As User", "Seq. As Stop Strings"], values@, Seq::<usize>::empty(), name_rule()),
        d.booleans() == seq![9usize, 10, 11],
        d.placeholder_spec() is None,
{
    let labels: Vec<&'static str> = vec!["Name", "Input Sequence", "Output Sequence", "System Sequence", "Input Suffix", "Output Suffix", "System Suffix", "Stop Sequence", "Separator Sequence", "Wrap", "System Same As User", "Seq. As Stop Strings"];
    let multiline: Vec<usize> = vec![];
    let rules = name_rules();
    proof {
        assert(labels@ =~= seq!["Name", "Input Sequence", "Output Sequence", "System Sequence", "Input Suffix", "Output Suffix", "System Suffix", "Stop Sequence", "Separator Sequence", "Wrap", "System Same As User", "Seq. As Stop Strings"]);
        assert(multiline@ =~= Seq::<usize>::empty());
        assert(rules@ =~= name_rule());
    }
    FieldDialog::new(" Edit Instruct Preset ", labels, values, multiline).with_boolean_fields(vec![9, 10, 11]).with_validated_fields(rules)
}

/// The reasoning preset editor.
pub fn open_reasoning_editor(values: Vec<String>) -> (d: FieldDialog)
    ensures
        editor_shape(d, " Edit Reasoning Preset ", seq!["Name", "Prefix", "Suffix", "Separator"], values@,
            Seq::<usize>::empty(), name_rule()),
        d.booleans().len() == 0,
        d.placeholder_spec() is None,
{
    let labels: Vec<&'static str> = vec!["Name", "Prefix", "Suffix", "Separator"];
    let multiline: Vec<usize> = vec![];
    let rules = name_rules();
    proof {
        assert(labels@ =~= seq!["Name", "Prefix", "Suffix", "Separator"]);
        assert(multiline@ =~= Seq::<usize>::empty());
        assert(rules@ =~= name_rule());
    }
    FieldDialog::new(" Edit Reasoning Preset ", labels, values, multiline).with_validated_fields(rules)
}

/// The system prompt editor: name and content (multi-line).
pub fn open_system_prompt_editor(values: Vec<String>) -> (d: FieldDialog)
    ensures
        editor_shape(d, " Edit System Prompt ", seq!["Name", "Content"], values@, seq![1usize], name_rule()),
        d.booleans().len() == 0,
        d.placeholder_spec() is None,
{
    let labels: Vec<&'static str> = vec!["Name", "Content"];
    let multiline: Vec<usize> = vec![1];
    let rules = name_rules();
    proof {
        assert(labels@ =~= seq!["Name", "Content"]);
        assert(multiline@ =~= seq![1usize]);
        assert(rules@ =~= name_rule());
    }
    FieldDialog::new(" Edit System Prompt ", labels, values, multiline).with_validated_fields(rules)
}

/// The rules of the worldbook entry editor: the order within `-999..=999`, the depth
/// within `0..=24`.
pub open spec fn entry_rules() -> Seq<(usize, FieldValidation)> {
    seq![(6usize, FieldValidation::Int { min: -999i64, max: 999i64 }), (7usize, FieldValidation::Int { min: 0i64, max: 24i64 })]
}

pub open spec fn entry_labels() -> Seq<&'static str> {
    seq!["Keys [OR]", "Content", "Selective", "Keys [AND]", "Constant", "Enabled", "Order", "Depth", "Case Sensitive"]
}

fn entry_rule_vec() -> (r: Vec<(usize, FieldValidation)>)
    ensures
        r@ == entry_rules(),
{
    let r = vec![(6, FieldValidation::Int { min: -999, max: 999 }), (7, FieldValidation::Int { min: 0, max: 24 })];
    assert(r@ =~= entry_rules());
    r
}

/// The worldbook entry editor (see `entry_to_values` for the fields); both key
/// fields show a placeholder when empty.
pub fn open_entry_editor(values: Vec<String>) -> (d: FieldDialog)
    ensures
        editor_shape(d, " Edit Entry ", entry_labels(), values@, seq![1usize], entry_rules()),
        d.booleans().len() == 0,
        d.placeholder_spec() == Some(("keyword1, keyword2, ...", seq![0usize, 3])),
{
    let labels: Vec<&'static str> = vec!["Keys [OR]", "Content", "Selective", "Keys [AND]", "Constant", "Enabled", "Order", "Depth", "Case Sensitive"];
    let multiline: Vec<usize> = vec![1];
    let rules = entry_rule_vec();
    let ph: Vec<usize> = vec![0, 3];
    assert(ph@ =~= seq![0usize, 3]);
    proof {
        assert(labels@ =~= entry_labels());
        assert(multiline@ =~= seq![1usize]);
        assert(rules@ =~= entry_rules());
    }
    FieldDialog::new(" Edit Entry ", labels, values, multiline).with_placeholder("keyword1, keyword2, ...", ph).with_validated_fields(rules)
}

/// The entry editor for an entry that is not selective: its second key list is
/// hidden.
pub fn open_entry_editor_non_selective(values: Vec<String>) -> (d: FieldDialog)
    ensures
        d.dialog_title() == " Edit Entry ",
        d.label_seq() == entry_labels(),
        d.vals() == values@,
        d.multilines() == seq![1usize],
        d.rules() == entry_rules(),
        d.hidden() == seq![3usize],
        d.sel() == 0 && !d.in_line_edit() && !d.in_multiline(),
{
    let mut d = open_entry_editor(values);
    let hidden: Vec<usize> = vec![3];
    assert(hidden@ =~= seq![3usize]);
    d.set_hidden_fields(hidden);
    d
}

/// In the entry editor, the second key list shows only while the entry is selective
/// (its third field reads `true`, in any ASCII case).
pub fn sync_entry_hidden_fields(d: &mut FieldDialog)
    ensures
        final(d).hidden() == (if old(d).vals().len() > 2 && crate::worldbook::reads_true(old(d).vals()[2]@) {
            Seq::<usize>::empty()
        } else {
            seq![3usize]
        }),
        final(d).vals() == old(d).vals(),
        final(d).sel() == old(d).sel(),
        final(d).label_seq() == old(d).label_seq() && final(d).rules() == old(d).rules(),
        final(d).multilines() == old(d).multilines() && final(d).booleans() == old(d).booleans(),
        final(d).locked() == old(d).locked() && final(d).selectors() == old(d).selectors(),
{
    let selective = d.values().len() > 2 && crate::worldbook::is_true_text(d.values()[2].as_str());
    let hidden: Vec<usize> = if selective { Vec::new() } else { vec![3] };
    assert(hidden@ =~= (if selective { Seq::<usize>::empty() } else { seq![3usize] }));
    d.set_hidden_fields(hidden);
}

} // verus!
