//! Which documents validation accepts.
//!
//! Validation reports no error exactly for the documents whose required
//! texts are present and whose models are consistent: no identifier shared,
//! every component's material in its model, no extent with a lower bound
//! above the upper one. The laws of this module prove that from the
//! definition of the expected errors.

use vstd::prelude::*;
use crate::document::Document;
use crate::lookup::{all_distinct, lemma_distinct_iff_none_shared, occurs, shared};
use crate::material::Material;
use crate::model::{GroundModel, ModelExtent};
use crate::validation::{
    component_findings, expected_errors, expected_warnings, extent_findings, material_findings,
    material_structure, model_structure, one_model_findings, one_model_structure,
    referential_findings, version_notice, Finding, Notice,
};
use crate::AGSI_VERSION;

verus! {

/// Whether the identifier and the name of every material of a model are
/// not empty.
pub open spec fn materials_named(model: GroundModel) -> bool {
    forall|k: int|
        0 <= k < model.materials@.len() ==> (#[trigger] model.materials@[k]).id@.len() > 0
            && model.materials@[k].name@.len() > 0
}

/// Whether every required text of a document is present: the schema
/// revision, the file identifier, and the identifier and name of every model
/// and material.
pub open spec fn texts_present(doc: Document) -> bool {
    &&& doc.ags_schema.version@.len() > 0
    &&& doc.ags_file.file_id@.len() > 0
    &&& forall|i: int|
        0 <= i < doc.agsi_model@.len() ==> (#[trigger] doc.agsi_model@[i]).id@.len() > 0
            && doc.agsi_model@[i].name@.len() > 0 && materials_named(doc.agsi_model@[i])
}

/// Whether every component of a model names a material of that model.
pub open spec fn references_resolve(model: GroundModel) -> bool {
    forall|c: int|
        0 <= c < model.components@.len() ==> occurs(
            model.material_ids(),
            (#[trigger] model.components@[c]).material_id@,
        )
}

/// Whether an extent, if there is one, has no axis with its lower bound
/// above its upper bound.
pub open spec fn extent_ordered(extent: Option<ModelExtent>) -> bool {
    match extent {
        None => true,
        Some(e) => e.ordered(),
    }
}

/// Whether an extent, if there is one, has its lower bound less than or
/// equal to its upper bound on every axis that it has.
pub open spec fn extent_min_le_max(extent: Option<ModelExtent>) -> bool {
    match extent {
        None => true,
        Some(e) => {
            &&& e.min_x.spec_le(e.max_x)
            &&& e.min_y.spec_le(e.max_y)
            &&& match (e.min_z, e.max_z) {
                (Some(lo), Some(hi)) => lo.spec_le(hi),
                _ => true,
            }
        },
    }
}

/// Whether the model at position `i` passes the referential checks.
pub open spec fn model_consistent(doc: Document, i: int) -> bool {
    let model = doc.agsi_model@[i];
    &&& !shared(doc.model_ids(), i)
    &&& references_resolve(model)
    &&& all_distinct(model.material_ids())
    &&& extent_ordered(model.extent)
}

/// Whether every model of a document passes the referential checks.
pub open spec fn consistent(doc: Document) -> bool {
    forall|i: int| 0 <= i < doc.agsi_model@.len() ==> #[trigger] model_consistent(doc, i)
}

proof fn lemma_material_structure(model: GroundModel, i: nat, n: nat)
    requires
        n <= model.materials@.len(),
    ensures
        material_structure(model, i, n).len() == 0 <==> forall|k: int|
            0 <= k < n ==> (#[trigger] model.materials@[k]).id@.len() > 0
                && model.materials@[k].name@.len() > 0,
    decreases n,
{
    if n > 0 {
        lemma_material_structure(model, i, (n - 1) as nat);
        if material_structure(model, i, n).len() == 0 {
            assert forall|k: int| 0 <= k < n implies (#[trigger] model.materials@[k]).id@.len() > 0
                && model.materials@[k].name@.len() > 0 by {
                if k == n - 1 {
                } else {
                    assert(0 <= k < n - 1);
                }
            }
        } else {
            if material_structure(model, i, (n - 1) as nat).len() == 0 {
                let m = model.materials@[n - 1];
                assert(m.id@.len() == 0 || m.name@.len() == 0);
            }
        }
    }
}

proof fn lemma_model_structure(doc: Document, n: nat)
    requires
        n <= doc.agsi_model@.len(),
    ensures
        model_structure(doc, n).len() == 0 <==> forall|i: int|
            0 <= i < n ==> (#[trigger] doc.agsi_model@[i]).id@.len() > 0
                && doc.agsi_model@[i].name@.len() > 0 && materials_named(doc.agsi_model@[i]),
    decreases n,
{
    if n > 0 {
        let last = doc.agsi_model@[n - 1];
        lemma_model_structure(doc, (n - 1) as nat);
        lemma_material_structure(last, (n - 1) as nat, last.materials@.len());
        if model_structure(doc, n).len() == 0 {
            assert forall|i: int| 0 <= i < n implies (#[trigger] doc.agsi_model@[i]).id@.len() > 0
                && doc.agsi_model@[i].name@.len() > 0 && materials_named(doc.agsi_model@[i]) by {
                if i == n - 1 {
                } else {
                    assert(0 <= i < n - 1);
                }
            }
        } else {
            if model_structure(doc, (n - 1) as nat).len() == 0 {
                assert(one_model_structure(last, (n - 1) as nat).len() > 0);
                assert(!(last.id@.len() > 0 && last.name@.len() > 0 && materials_named(last)));
            }
        }
    }
}

proof fn lemma_component_findings(model: GroundModel, i: nat, n: nat)
    requires
        n <= model.components@.len(),
    ensures
        component_findings(model, i, n).len() == 0 <==> forall|c: int|
            0 <= c < n ==> occurs(
                model.material_ids(),
                (#[trigger] model.components@[c]).material_id@,
            ),
    decreases n,
{
    if n > 0 {
        lemma_component_findings(model, i, (n - 1) as nat);
        if component_findings(model, i, n).len() == 0 {
            assert forall|c: int| 0 <= c < n implies occurs(
                model.material_ids(),
                (#[trigger] model.components@[c]).material_id@,
            ) by {
                if c == n - 1 {
                } else {
                    assert(0 <= c < n - 1);
                }
            }
        } else {
            if component_findings(model, i, (n - 1) as nat).len() == 0 {
                assert(!occurs(model.material_ids(), model.components@[n - 1].material_id@));
            }
        }
    }
}

proof fn lemma_material_findings(model: GroundModel, i: nat, n: nat)
    requires
        n <= model.materials@.len(),
    ensures
        material_findings(model, i, n).len() == 0 <==> forall|k: int|
            0 <= k < n ==> !#[trigger] shared(model.material_ids(), k),
    decreases n,
{
    if n > 0 {
        lemma_material_findings(model, i, (n - 1) as nat);
        if material_findings(model, i, n).len() == 0 {
            assert forall|k: int| 0 <= k < n implies !#[trigger] shared(
                model.material_ids(),
                k,
            ) by {
                if k == n - 1 {
                } else {
                    assert(0 <= k < n - 1);
                }
            }
        } else {
            if material_findings(model, i, (n - 1) as nat).len() == 0 {
                assert(shared(model.material_ids(), n - 1));
            }
        }
    }
}

proof fn lemma_one_model(doc: Document, i: nat)
    requires
        i < doc.agsi_model@.len(),
    ensures
        one_model_findings(doc, i).len() == 0 <==> model_consistent(doc, i as int),
{
    let model = doc.agsi_model@[i as int];
    lemma_component_findings(model, i, model.components@.len());
    lemma_material_findings(model, i, model.materials@.len());
    lemma_distinct_iff_none_shared(model.material_ids());
    assert(model.material_ids().len() == model.materials@.len());
    assert(extent_findings(model.extent, i).len() == 0 <==> extent_ordered(model.extent));
}

proof fn lemma_referential(doc: Document, n: nat)
    requires
        n <= doc.agsi_model@.len(),
    ensures
        referential_findings(doc, n).len() == 0 <==> forall|i: int|
            0 <= i < n ==> #[trigger] model_consistent(doc, i),
    decreases n,
{
    if n > 0 {
        lemma_referential(doc, (n - 1) as nat);
        lemma_one_model(doc, (n - 1) as nat);
        if referential_findings(doc, n).len() == 0 {
            assert forall|i: int| 0 <= i < n implies #[trigger] model_consistent(doc, i) by {
                if i == n - 1 {
                } else {
                    assert(0 <= i < n - 1);
                }
            }
        } else {
            if referential_findings(doc, (n - 1) as nat).len() == 0 {
                assert(!model_consistent(doc, n - 1));
            }
        }
    }
}

/// Validation reports no error for a document if and only if every required
/// text is present and every model is consistent.
pub proof fn lemma_valid_iff_complete_and_consistent(doc: Document)
    ensures
        expected_errors(doc).len() == 0 <==> texts_present(doc) && consistent(doc),
{
    lemma_model_structure(doc, doc.agsi_model@.len());
    lemma_referential(doc, doc.agsi_model@.len());
}

/// A document whose required texts are present, in which no two models and
/// no two materials of a model share an identifier, every component names a
/// material of its model, and every extent has its lower bound less than or
/// equal to its upper bound on every axis, is valid: validation reports no
/// error for it, and no warning but the one about the schema revision.
pub proof fn lemma_sound_document_is_valid(doc: Document)
    requires
        texts_present(doc),
        all_distinct(doc.model_ids()),
        forall|i: int|
            0 <= i < doc.agsi_model@.len() ==> all_distinct(
                (#[trigger] doc.agsi_model@[i]).material_ids(),
            ) && references_resolve(doc.agsi_model@[i]) && extent_min_le_max(
                doc.agsi_model@[i].extent,
            ),
    ensures
        expected_errors(doc) == Seq::<Finding>::empty(),
        expected_warnings(doc).len() <= 1,
        forall|w: int|
            0 <= w < expected_warnings(doc).len() ==> expected_warnings(doc)[w] == version_notice(
                doc.ags_schema.version@,
            ),
        doc.ags_schema.version@ == AGSI_VERSION@ ==> expected_warnings(doc) == Seq::<
            Notice,
        >::empty(),
{
    lemma_distinct_iff_none_shared(doc.model_ids());
    assert(doc.model_ids().len() == doc.agsi_model@.len());
    assert forall|i: int| 0 <= i < doc.agsi_model@.len() implies #[trigger] model_consistent(
        doc,
        i,
    ) by {
        let model = doc.agsi_model@[i];
        assert(extent_min_le_max(model.extent));
        assert(extent_ordered(model.extent));
    }
    lemma_valid_iff_complete_and_consistent(doc);
    assert(expected_errors(doc) =~= Seq::<Finding>::empty());
}

/// A fresh document under a file identifier that is not empty is valid, and
/// validation has nothing to warn about.
pub proof fn lemma_fresh_document_is_valid(doc: Document, file_id: Seq<char>)
    requires
        doc.fresh(file_id),
        file_id.len() > 0,
    ensures
        expected_errors(doc) == Seq::<Finding>::empty(),
        expected_warnings(doc) == Seq::<Notice>::empty(),
{
    reveal_strlit("1.0.1");
    assert(AGSI_VERSION@.len() == 5);
    lemma_valid_iff_complete_and_consistent(doc);
    assert(expected_errors(doc) =~= Seq::<Finding>::empty());
}

/// Adding a material to a model of a valid document keeps the document
/// valid, as long as the material has a name and an identifier that no
/// material of that model has yet.
pub proof fn lemma_new_material_keeps_valid(
    before: Document,
    after: Document,
    at: int,
    changed: GroundModel,
    material: Material,
)
    requires
        expected_errors(before).len() == 0,
        0 <= at < before.agsi_model@.len(),
        after == (Document { agsi_model: after.agsi_model, ..before }),
        after.agsi_model@ == before.agsi_model@.update(at, changed),
        changed == (GroundModel { materials: changed.materials, ..before.agsi_model@[at] }),
        changed.materials@ == before.agsi_model@[at].materials@.push(material),
        material.id@.len() > 0,
        material.name@.len() > 0,
        !occurs(before.agsi_model@[at].material_ids(), material.id@),
    ensures
        expected_errors(after).len() == 0,
{
    lemma_valid_iff_complete_and_consistent(before);
    lemma_valid_iff_complete_and_consistent(after);
    let old_model = before.agsi_model@[at];
    let new_model = after.agsi_model@[at];
    let old_ids = old_model.material_ids();
    let new_ids = new_model.material_ids();
    let n = old_model.materials@.len() as int;
    assert(after.model_ids() =~= before.model_ids());
    assert forall|k: int| 0 <= k < n implies new_ids[k] == old_ids[k] by {
        assert(new_model.materials@[k] == old_model.materials@[k]);
    }
    assert(new_model == changed);
    assert(new_ids[n] == material.id@);
    assert(new_model.materials@[n] == material);
    assert forall|i: int| 0 <= i < after.agsi_model@.len() implies (
    #[trigger] after.agsi_model@[i]).id@.len() > 0 && after.agsi_model@[i].name@.len() > 0
        && materials_named(after.agsi_model@[i]) by {
        assert(model_consistent(before, i));
        let b = before.agsi_model@[i];
        assert(b.id@.len() > 0 && b.name@.len() > 0 && materials_named(b));
        if i == at {
            assert forall|k: int| 0 <= k < new_model.materials@.len() implies (
            #[trigger] new_model.materials@[k]).id@.len() > 0 && new_model.materials@[k].name@.len()
                > 0 by {
                if k < n {
                    assert(new_model.materials@[k] == old_model.materials@[k]);
                    assert(old_model.materials@[k].id@.len() > 0);
                }
            }
        }
    }
    assert forall|i: int| 0 <= i < after.agsi_model@.len() implies #[trigger] model_consistent(
        after,
        i,
    ) by {
        assert(model_consistent(before, i));
        if i == at {
            assert forall|a: int, b: int| 0 <= a < b < new_ids.len() implies #[trigger] new_ids[a]
                != #[trigger] new_ids[b] by {
                if b < n {
                    assert(old_ids[a] != old_ids[b]);
                } else {
                    assert(old_ids[a] == new_ids[a]);
                    if new_ids[a] == new_ids[b] {
                        assert(occurs(old_ids, new_ids[n]));
                    }
                }
            }
            assert forall|c: int| 0 <= c < new_model.components@.len() implies occurs(
                new_ids,
                (#[trigger] new_model.components@[c]).material_id@,
            ) by {
                let wanted = old_model.components@[c].material_id@;
                assert(occurs(old_ids, wanted));
                let w = choose|w: int| 0 <= w < old_ids.len() && #[trigger] old_ids[w] == wanted;
                assert(new_ids[w] == wanted);
            }
        }
    }
}

/// Warnings do not bear on validity: whether a document is valid is the same
/// whatever schema revision it declares, as long as it declares one.
pub proof fn lemma_revision_does_not_invalidate(doc: Document, other: Document)
    requires
        other.ags_schema.version@.len() > 0,
        doc.ags_schema.version@.len() > 0,
        other.ags_file == doc.ags_file,
        other.agsi_model == doc.agsi_model,
    ensures
        (expected_errors(doc).len() == 0) == (expected_errors(other).len() == 0),
{
    lemma_valid_iff_complete_and_consistent(doc);
    lemma_valid_iff_complete_and_consistent(other);
    assert(doc.model_ids() =~= other.model_ids());
    assert forall|i: int| 0 <= i < doc.agsi_model@.len() implies model_consistent(doc, i)
        == model_consistent(other, i) by {}
}

} // verus!
