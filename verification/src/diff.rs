//! Comparing two documents.
//!
//! A comparison lists what differs as lines of text: first the schema
//! revision, the file identifier and the counts of models, materials and
//! components; then, if details are asked for, model by model as far as both
//! documents have one at the same position: identifier, name, and for every
//! material whether it was renamed, changed its number of properties, was
//! removed or was added. Materials are matched by identifier; among several
//! of one identifier the first counts.

use vstd::prelude::*;
use vstd::string::*;
use crate::document::{clipped, Document};
use crate::lookup::{all_distinct, first_at, lemma_first_exists, occurs};
use crate::material::Material;
use crate::model::GroundModel;
use crate::text::{decimal, push_decimal, texts_of};

verus! {

/// One line if the condition holds, none otherwise.
pub open spec fn line_when(cond: bool, line: Seq<char>) -> Seq<Seq<char>> {
    if cond {
        seq![line]
    } else {
        Seq::<Seq<char>>::empty()
    }
}

/// A change from one text to another, behind a label.
pub open spec fn change(label: Seq<char>, from: Seq<char>, to: Seq<char>) -> Seq<char> {
    label + ": "@ + from + " \u{2192} "@ + to
}

/// The first material of a model with the given identifier, if there is
/// one.
pub open spec fn material_named(model: GroundModel, id: Seq<char>) -> Option<Material> {
    if occurs(model.material_ids(), id) {
        Some(model.materials@[choose|i: int| first_at(model.material_ids(), id, i)])
    } else {
        None
    }
}

/// What became of one material of the first model in the second: renamed,
/// another number of properties, or removed.
pub open spec fn fate_of(material: Material, other: GroundModel) -> Seq<Seq<char>> {
    match material_named(other, material.id@) {
        Some(twin) => line_when(
            material.name@ != twin.name@,
            change("Material "@ + material.id@ + " name"@, material.name@, twin.name@),
        ) + line_when(
            material.properties@.len() != twin.properties@.len(),
            change(
                "Material "@ + material.id@ + " properties"@,
                decimal(material.properties@.len()),
                decimal(twin.properties@.len()),
            ),
        ),
        None => seq!["Material "@ + material.id@ + " removed"@],
    }
}

/// What became of the first `n` materials of the first model.
pub open spec fn fates(one: GroundModel, other: GroundModel, n: nat) -> Seq<Seq<char>>
    decreases n,
{
    if n == 0 {
        Seq::<Seq<char>>::empty()
    } else {
        fates(one, other, (n - 1) as nat) + fate_of(one.materials@[n - 1], other)
    }
}

/// The materials among the first `n` of the second model that the first
/// model does not have.
pub open spec fn additions(one: GroundModel, other: GroundModel, n: nat) -> Seq<Seq<char>>
    decreases n,
{
    if n == 0 {
        Seq::<Seq<char>>::empty()
    } else {
        let id = other.materials@[n - 1].id@;
        additions(one, other, (n - 1) as nat) + line_when(
            !occurs(one.material_ids(), id),
            "Material "@ + id + " added"@,
        )
    }
}

/// What differs between the models at position `i` of two documents.
pub open spec fn model_changes(one: GroundModel, other: GroundModel, i: nat) -> Seq<Seq<char>> {
    line_when(one.id@ != other.id@, change("Model "@ + decimal(i) + " ID"@, one.id@, other.id@))
        + line_when(
        one.name@ != other.name@,
        change("Model "@ + decimal(i) + " name"@, one.name@, other.name@),
    ) + fates(one, other, one.materials@.len()) + additions(one, other, other.materials@.len())
}

/// What differs between the first `n` models of two documents.
pub open spec fn detail_changes(a: Document, b: Document, n: nat) -> Seq<Seq<char>>
    decreases n,
{
    if n == 0 {
        Seq::<Seq<char>>::empty()
    } else {
        detail_changes(a, b, (n - 1) as nat) + model_changes(
            a.agsi_model@[n - 1],
            b.agsi_model@[n - 1],
            (n - 1) as nat,
        )
    }
}

/// What differs between the summaries of two documents.
pub open spec fn summary_changes(a: Document, b: Document) -> Seq<Seq<char>> {
    line_when(
        a.ags_schema.version@ != b.ags_schema.version@,
        change("Schema version"@, a.ags_schema.version@, b.ags_schema.version@),
    ) + line_when(
        a.ags_file.file_id@ != b.ags_file.file_id@,
        change("File ID"@, a.ags_file.file_id@, b.ags_file.file_id@),
    ) + line_when(
        a.agsi_model@.len() != b.agsi_model@.len(),
        change("Model count"@, decimal(a.agsi_model@.len()), decimal(b.agsi_model@.len())),
    ) + line_when(
        clipped(a.material_total()) != clipped(b.material_total()),
        change(
            "Material count"@,
            decimal(clipped(a.material_total())),
            decimal(clipped(b.material_total())),
        ),
    ) + line_when(
        clipped(a.component_total()) != clipped(b.component_total()),
        change(
            "Component count"@,
            decimal(clipped(a.component_total())),
            decimal(clipped(b.component_total())),
        ),
    )
}

/// The number of positions at which both documents have a model.
pub open spec fn common_models(a: Document, b: Document) -> nat {
    if a.agsi_model@.len() <= b.agsi_model@.len() {
        a.agsi_model@.len()
    } else {
        b.agsi_model@.len()
    }
}

/// Everything that a comparison of two documents lists, in order.
pub open spec fn expected_differences(a: Document, b: Document, detailed: bool) -> Seq<
    Seq<char>,
> {
    summary_changes(a, b) + if detailed {
        detail_changes(a, b, common_models(a, b))
    } else {
        Seq::<Seq<char>>::empty()
    }
}

fn note(lines: &mut Vec<String>, line: String)
    ensures
        texts_of(final(lines)@) == texts_of(old(lines)@).push(line@),
{
    lines.push(line);
    assert(texts_of(lines@) =~= texts_of(old(lines)@).push(line@));
}

fn change_text(label: String, from: &str, to: &str) -> (line: String)
    ensures
        line@ == change(label@, from@, to@),
{
    let mut line = label;
    line.append(": ");
    line.append(from);
    line.append(" \u{2192} ");
    line.append(to);
    line
}

fn note_change(lines: &mut Vec<String>, differs: bool, label: String, from: &str, to: &str)
    ensures
        texts_of(final(lines)@) == texts_of(old(lines)@) + line_when(
            differs,
            change(label@, from@, to@),
        ),
{
    if differs {
        note(lines, change_text(label, from, to));
    }
    assert(texts_of(lines@) =~= texts_of(old(lines)@) + line_when(
        differs,
        change(label@, from@, to@),
    ));
}

fn note_count_change(lines: &mut Vec<String>, label: &str, from: usize, to: usize)
    ensures
        texts_of(final(lines)@) == texts_of(old(lines)@) + line_when(
            from != to,
            change(label@, decimal(from as nat), decimal(to as nat)),
        ),
{
    let mut a = String::new();
    push_decimal(&mut a, from);
    let mut b = String::new();
    push_decimal(&mut b, to);
    assert(a@ =~= decimal(from as nat));
    assert(b@ =~= decimal(to as nat));
    note_change(lines, from != to, String::from_str(label), a.as_str(), b.as_str());
}

fn material_label(id: &String, what: &str) -> (label: String)
    ensures
        label@ == "Material "@ + id@ + what@,
{
    let mut label = String::from_str("Material ");
    label.append(id.as_str());
    label.append(what);
    label
}

fn model_label(i: usize, what: &str) -> (label: String)
    ensures
        label@ == "Model "@ + decimal(i as nat) + what@,
{
    let mut label = String::from_str("Model ");
    push_decimal(&mut label, i);
    label.append(what);
    label
}

fn note_fate(lines: &mut Vec<String>, material: &Material, other: &GroundModel)
    ensures
        texts_of(final(lines)@) == texts_of(old(lines)@) + fate_of(*material, *other),
{
    let ghost base = texts_of(lines@);
    match other.get_material(material.id.as_str()) {
        Some(twin) => {
            proof {
                lemma_first_exists(other.material_ids(), material.id@);
                assert(material_named(*other, material.id@) == Some(*twin));
            }
            note_change(
                lines,
                material.name != twin.name,
                material_label(&material.id, " name"),
                material.name.as_str(),
                twin.name.as_str(),
            );
            let mut from = String::new();
            push_decimal(&mut from, material.properties.len());
            let mut to = String::new();
            push_decimal(&mut to, twin.properties.len());
            proof {
                assert(from@ =~= decimal(material.properties@.len()));
                assert(to@ =~= decimal(twin.properties@.len()));
            }
            note_change(
                lines,
                material.properties.len() != twin.properties.len(),
                material_label(&material.id, " properties"),
                from.as_str(),
                to.as_str(),
            );
            assert(texts_of(lines@) =~= base + fate_of(*material, *other));
        },
        None => {
            note(lines, material_label(&material.id, " removed"));
            assert(texts_of(lines@) =~= base + fate_of(*material, *other));
        },
    }
}

fn note_model_changes(lines: &mut Vec<String>, one: &GroundModel, other: &GroundModel, i: usize)
    ensures
        texts_of(final(lines)@) == texts_of(old(lines)@) + model_changes(*one, *other, i as nat),
{
    let ghost base = texts_of(lines@);
    note_change(
        lines,
        one.id != other.id,
        model_label(i, " ID"),
        one.id.as_str(),
        other.id.as_str(),
    );
    note_change(
        lines,
        one.name != other.name,
        model_label(i, " name"),
        one.name.as_str(),
        other.name.as_str(),
    );
    let ghost head = texts_of(lines@);
    assert(texts_of(lines@) =~= head + fates(*one, *other, 0));
    let mut k: usize = 0;
    while k < one.materials.len()
        invariant
            k <= one.materials@.len(),
            texts_of(lines@) == head + fates(*one, *other, k as nat),
        decreases one.materials@.len() - k,
    {
        note_fate(lines, &one.materials[k], other);
        proof {
            assert(texts_of(lines@) =~= head + fates(*one, *other, (k + 1) as nat));
        }
        k += 1;
    }
    let ghost middle = texts_of(lines@);
    assert(texts_of(lines@) =~= middle + additions(*one, *other, 0));
    let mut j: usize = 0;
    while j < other.materials.len()
        invariant
            j <= other.materials@.len(),
            texts_of(lines@) == middle + additions(*one, *other, j as nat),
        decreases other.materials@.len() - j,
    {
        let ghost before = texts_of(lines@);
        let id = &other.materials[j].id;
        let absent = one.get_material(id.as_str()).is_none();
        if absent {
            note(lines, material_label(id, " added"));
        }
        proof {
            assert(texts_of(lines@) =~= before + line_when(
                !occurs(one.material_ids(), id@),
                "Material "@ + id@ + " added"@,
            ));
            assert(texts_of(lines@) =~= middle + additions(*one, *other, (j + 1) as nat));
        }
        j += 1;
    }
    assert(texts_of(lines@) =~= base + model_changes(*one, *other, i as nat));
}

/// Lists what differs between two documents, the first taken as the earlier
/// one. Without `detailed` only the summaries are compared.
pub fn differences(a: &Document, b: &Document, detailed: bool) -> (lines: Vec<String>)
    ensures
        texts_of(lines@) == expected_differences(*a, *b, detailed),
{
    let mut lines: Vec<String> = Vec::new();
    assert(texts_of(lines@) =~= Seq::<Seq<char>>::empty());
    note_change(
        &mut lines,
        a.ags_schema.version != b.ags_schema.version,
        String::from_str("Schema version"),
        a.ags_schema.version.as_str(),
        b.ags_schema.version.as_str(),
    );
    note_change(
        &mut lines,
        a.ags_file.file_id != b.ags_file.file_id,
        String::from_str("File ID"),
        a.ags_file.file_id.as_str(),
        b.ags_file.file_id.as_str(),
    );
    note_count_change(&mut lines, "Model count", a.agsi_model.len(), b.agsi_model.len());
    note_count_change(&mut lines, "Material count", a.material_count(), b.material_count());
    note_count_change(&mut lines, "Component count", a.component_count(), b.component_count());
    assert(texts_of(lines@) =~= summary_changes(*a, *b));
    if detailed {
        let common = if a.agsi_model.len() <= b.agsi_model.len() {
            a.agsi_model.len()
        } else {
            b.agsi_model.len()
        };
        assert(texts_of(lines@) =~= summary_changes(*a, *b) + detail_changes(*a, *b, 0));
        let mut i: usize = 0;
        while i < common
            invariant
                i <= common,
                common == common_models(*a, *b),
                texts_of(lines@) == summary_changes(*a, *b) + detail_changes(*a, *b, i as nat),
            decreases common - i,
        {
            note_model_changes(&mut lines, &a.agsi_model[i], &b.agsi_model[i], i);
            proof {
                assert(texts_of(lines@) =~= summary_changes(*a, *b) + detail_changes(
                    *a,
                    *b,
                    (i + 1) as nat,
                ));
            }
            i += 1;
        }
    } else {
        assert(texts_of(lines@) =~= expected_differences(*a, *b, detailed));
    }
    lines
}

/// A document does not differ from itself, as long as no model holds two
/// materials of one identifier.
pub proof fn lemma_no_difference_from_itself(doc: Document, detailed: bool)
    requires
        forall|i: int|
            0 <= i < doc.agsi_model@.len() ==> all_distinct(
                (#[trigger] doc.agsi_model@[i]).material_ids(),
            ),
    ensures
        expected_differences(doc, doc, detailed) == Seq::<Seq<char>>::empty(),
{
    assert(summary_changes(doc, doc) =~= Seq::<Seq<char>>::empty());
    lemma_same_models(doc, doc.agsi_model@.len());
    assert(expected_differences(doc, doc, detailed) =~= Seq::<Seq<char>>::empty());
}

proof fn lemma_same_models(doc: Document, n: nat)
    requires
        n <= doc.agsi_model@.len(),
        forall|i: int|
            0 <= i < doc.agsi_model@.len() ==> all_distinct(
                (#[trigger] doc.agsi_model@[i]).material_ids(),
            ),
    ensures
        detail_changes(doc, doc, n) == Seq::<Seq<char>>::empty(),
    decreases n,
{
    if n > 0 {
        lemma_same_models(doc, (n - 1) as nat);
        let m = doc.agsi_model@[n - 1];
        lemma_same_materials(m, m.materials@.len());
        assert(model_changes(m, m, (n - 1) as nat) =~= Seq::<Seq<char>>::empty());
        assert(detail_changes(doc, doc, n) =~= Seq::<Seq<char>>::empty());
    }
}

proof fn lemma_same_materials(m: GroundModel, n: nat)
    requires
        n <= m.materials@.len(),
        all_distinct(m.material_ids()),
    ensures
        fates(m, m, n) == Seq::<Seq<char>>::empty(),
        additions(m, m, n) == Seq::<Seq<char>>::empty(),
    decreases n,
{
    if n > 0 {
        lemma_same_materials(m, (n - 1) as nat);
        let k = n - 1;
        let material = m.materials@[k];
        let ids = m.material_ids();
        assert(ids[k] == material.id@);
        assert(occurs(ids, material.id@));
        assert(first_at(ids, material.id@, k)) by {
            assert forall|j: int| 0 <= j < k implies #[trigger] ids[j] != material.id@ by {
                assert(ids[j] != ids[k]);
            }
        }
        lemma_first_exists(ids, material.id@);
        let chosen = choose|i: int| first_at(ids, material.id@, i);
        assert(chosen == k);
        assert(material_named(m, material.id@) == Some(material));
        assert(fate_of(material, m) =~= Seq::<Seq<char>>::empty());
        assert(fates(m, m, n) =~= Seq::<Seq<char>>::empty());
        assert(additions(m, m, n) =~= Seq::<Seq<char>>::empty());
    }
}

} // verus!
