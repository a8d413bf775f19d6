//! Read-only questions about a document: which model is meant, and which
//! materials are of a kind or carry a property.

use vstd::prelude::*;
use vstd::string::*;
use crate::document::Document;
use crate::error::AgsiError;
use crate::lookup::{first_at, occurs};
use crate::material::{Material, MaterialType};
use crate::model::GroundModel;
use crate::text::str_eq;

verus! {

/// The names of a list, separated by a comma and a blank.
pub open spec fn joined(names: Seq<Seq<char>>, n: nat) -> Seq<char>
    decreases n,
{
    if n == 0 {
        Seq::<char>::empty()
    } else if n == 1 {
        names[0]
    } else {
        joined(names, (n - 1) as nat) + ", "@ + names[n - 1]
    }
}

/// Why no model could be chosen without an identifier: there is not exactly
/// one. The message lists the identifiers to choose from.
pub open spec fn ambiguous_models(ids: Seq<Seq<char>>) -> Seq<char> {
    "Multiple models found. Please specify a model. Available: "@ + joined(ids, ids.len())
}

/// Chooses the model that a caller means: with an identifier, the first
/// model that has it; without one, the only model of the document.
///
/// Fails with `ModelNotFound` where no model has the identifier, and with a
/// validation error that lists the identifiers where none was given and the
/// document does not hold exactly one model.
pub fn select_model<'a>(doc: &'a Document, model_id: Option<&str>) -> (r: Result<
    &'a GroundModel,
    AgsiError,
>)
    ensures
        match model_id {
            Some(id) => match r {
                Ok(m) => exists|i: int|
                    first_at(doc.model_ids(), id@, i) && *m == doc.agsi_model@[i],
                Err(e) => !occurs(doc.model_ids(), id@) && (e matches AgsiError::ModelNotFound(m)
                    && m@ == id@),
            },
            None => match r {
                Ok(m) => doc.agsi_model@.len() == 1 && *m == doc.agsi_model@[0],
                Err(e) => doc.agsi_model@.len() != 1 && (e matches AgsiError::Validation(m) && m@
                    == ambiguous_models(doc.model_ids())),
            },
        },
{
    match model_id {
        Some(id) => match doc.get_model(id) {
            Some(m) => Ok(m),
            None => Err(AgsiError::ModelNotFound(String::from_str(id))),
        },
        None => {
            if doc.agsi_model.len() == 1 {
                Ok(&doc.agsi_model[0])
            } else {
                let mut message = String::from_str(
                    "Multiple models found. Please specify a model. Available: ",
                );
                let ghost head = message@;
                let mut i: usize = 0;
                while i < doc.agsi_model.len()
                    invariant
                        i <= doc.agsi_model@.len(),
                        message@ == head + joined(doc.model_ids(), i as nat),
                    decreases doc.agsi_model@.len() - i,
                {
                    if i > 0 {
                        message.append(", ");
                    }
                    message.append(doc.agsi_model[i].id.as_str());
                    proof {
                        assert(doc.model_ids()[i as int] == doc.agsi_model@[i as int].id@);
                        if i == 0 {
                            assert(joined(doc.model_ids(), 0) =~= Seq::<char>::empty());
                            assert(message@ =~= head + joined(doc.model_ids(), 1));
                        } else {
                            assert(message@ =~= head + joined(doc.model_ids(), (i + 1) as nat));
                        }
                    }
                    i += 1;
                }
                proof {
                    assert(doc.model_ids().len() == doc.agsi_model@.len());
                }
                Err(AgsiError::Validation(message))
            }
        },
    }
}

impl MaterialType {
    /// The name of the kind, as it is shown to a reader.
    pub open spec fn label(self) -> Seq<char> {
        match self {
            MaterialType::Soil => "Soil"@,
            MaterialType::Rock => "Rock"@,
            MaterialType::Fill => "Fill"@,
            MaterialType::MadeGround => "MadeGround"@,
            MaterialType::Anthropogenic => "Anthropogenic"@,
            MaterialType::Water => "Water"@,
            MaterialType::Void => "Void"@,
            MaterialType::Unknown => "Unknown"@,
        }
    }

    /// The kind that an upper-case name stands for, if it stands for one.
    pub open spec fn of_upper_name(name: Seq<char>) -> Option<MaterialType> {
        if name == "SOIL"@ {
            Some(MaterialType::Soil)
        } else if name == "ROCK"@ {
            Some(MaterialType::Rock)
        } else if name == "FILL"@ {
            Some(MaterialType::Fill)
        } else if name == "MADEGROUND"@ {
            Some(MaterialType::MadeGround)
        } else if name == "ANTHROPOGENIC"@ {
            Some(MaterialType::Anthropogenic)
        } else if name == "WATER"@ {
            Some(MaterialType::Water)
        } else if name == "VOID"@ {
            Some(MaterialType::Void)
        } else if name == "UNKNOWN"@ {
            Some(MaterialType::Unknown)
        } else {
            None
        }
    }

    /// The name of the kind, as it is shown to a reader.
    pub fn name(&self) -> (name: &'static str)
        ensures
            name@ == self.label(),
    {
        match self {
            MaterialType::Soil => "Soil",
            MaterialType::Rock => "Rock",
            MaterialType::Fill => "Fill",
            MaterialType::MadeGround => "MadeGround",
            MaterialType::Anthropogenic => "Anthropogenic",
            MaterialType::Water => "Water",
            MaterialType::Void => "Void",
            MaterialType::Unknown => "Unknown",
        }
    }

    /// The kind that an upper-case name stands for, if it stands for one.
    pub fn from_upper_name(name: &str) -> (kind: Option<MaterialType>)
        ensures
            kind == MaterialType::of_upper_name(name@),
    {
        if str_eq(name, "SOIL") {
            Some(MaterialType::Soil)
        } else if str_eq(name, "ROCK") {
            Some(MaterialType::Rock)
        } else if str_eq(name, "FILL") {
            Some(MaterialType::Fill)
        } else if str_eq(name, "MADEGROUND") {
            Some(MaterialType::MadeGround)
        } else if str_eq(name, "ANTHROPOGENIC") {
            Some(MaterialType::Anthropogenic)
        } else if str_eq(name, "WATER") {
            Some(MaterialType::Water)
        } else if str_eq(name, "VOID") {
            Some(MaterialType::Void)
        } else if str_eq(name, "UNKNOWN") {
            Some(MaterialType::Unknown)
        } else {
            None
        }
    }
}

/// Where a material stands in a document: the position of its model and its
/// own position in that model.
#[derive(Debug, Clone, Copy, PartialEq, Eq, Structural)]
pub struct MaterialPlace {
    pub model: usize,
    pub material: usize,
}

/// Whether a material answers a query: it is of the kind asked for, if one
/// is asked for, and has a property of the name asked for, if one is.
pub open spec fn answers(
    material: Material,
    kind: Option<MaterialType>,
    property: Option<Seq<char>>,
) -> bool {
    &&& (kind matches Some(k) ==> material.material_type == k)
    &&& (property matches Some(p) ==> occurs(material.property_names(), p))
}

/// The places of the materials that answer a query among the first `n`
/// materials of the model at position `i`.
pub open spec fn places_in_model(
    model: GroundModel,
    i: usize,
    n: nat,
    kind: Option<MaterialType>,
    property: Option<Seq<char>>,
) -> Seq<MaterialPlace>
    decreases n,
{
    if n == 0 {
        Seq::<MaterialPlace>::empty()
    } else {
        let k = (n - 1) as nat;
        let rest = places_in_model(model, i, k, kind, property);
        if answers(model.materials@[k as int], kind, property) {
            rest.push(MaterialPlace { model: i, material: k as usize })
        } else {
            rest
        }
    }
}

/// The places of the materials that answer a query in the first `n` models,
/// in document order.
pub open spec fn places(
    doc: Document,
    n: nat,
    kind: Option<MaterialType>,
    property: Option<Seq<char>>,
) -> Seq<MaterialPlace>
    decreases n,
{
    if n == 0 {
        Seq::<MaterialPlace>::empty()
    } else {
        let i = (n - 1) as nat;
        places(doc, i, kind, property) + places_in_model(
            doc.agsi_model@[i as int],
            i as usize,
            doc.agsi_model@[i as int].materials@.len(),
            kind,
            property,
        )
    }
}

/// Whether a material answers a query.
pub fn material_answers(material: &Material, kind: Option<MaterialType>, property: Option<&str>) -> (r:
    bool)
    ensures
        r == answers(
            *material,
            kind,
            match property {
                Some(p) => Some(p@),
                None => None::<Seq<char>>,
            },
        ),
{
    let of_kind = match kind {
        Some(k) => material.material_type == k,
        None => true,
    };
    let has_property = match property {
        Some(p) => material.get_property(p).is_some(),
        None => true,
    };
    of_kind && has_property
}

/// The places of all materials of a document that are of the given kind, if
/// one is given, and have a property of the given name, if one is given, in
/// document order.
pub fn query_materials(doc: &Document, kind: Option<MaterialType>, property: Option<&str>) -> (found:
    Vec<MaterialPlace>)
    ensures
        found@ == places(
            *doc,
            doc.agsi_model@.len(),
            kind,
            match property {
                Some(p) => Some(p@),
                None => None::<Seq<char>>,
            },
        ),
        forall|j: int|
            0 <= j < found@.len() ==> (#[trigger] found@[j]).model < doc.agsi_model@.len()
                && found@[j].material < doc.agsi_model@[found@[j].model as int].materials@.len(),
{
    let ghost wanted: Option<Seq<char>> = match property {
        Some(p) => Some(p@),
        None => None,
    };
    let mut found: Vec<MaterialPlace> = Vec::new();
    let mut i: usize = 0;
    while i < doc.agsi_model.len()
        invariant
            i <= doc.agsi_model@.len(),
            wanted == match property {
                Some(p) => Some(p@),
                None => None::<Seq<char>>,
            },
            found@ == places(*doc, i as nat, kind, wanted),
            forall|j: int|
                0 <= j < found@.len() ==> (#[trigger] found@[j]).model < doc.agsi_model@.len()
                    && found@[j].material < doc.agsi_model@[found@[j].model as int].materials@.len(),
        decreases doc.agsi_model@.len() - i,
    {
        let model = &doc.agsi_model[i];
        let ghost base = found@;
        let mut k: usize = 0;
        while k < model.materials.len()
            invariant
                k <= model.materials@.len(),
                i < doc.agsi_model@.len(),
                *model == doc.agsi_model@[i as int],
                wanted == match property {
                    Some(p) => Some(p@),
                    None => None::<Seq<char>>,
                },
                found@ == base + places_in_model(*model, i, k as nat, kind, wanted),
                forall|j: int|
                    0 <= j < found@.len() ==> (#[trigger] found@[j]).model < doc.agsi_model@.len()
                        && found@[j].material < doc.agsi_model@[found@[j].model as int].materials@.len(),
            decreases model.materials@.len() - k,
        {
            if material_answers(&model.materials[k], kind, property) {
                found.push(MaterialPlace { model: i, material: k });
            }
            proof {
                assert(found@ =~= base + places_in_model(
                    *model,
                    i,
                    (k + 1) as nat,
                    kind,
                    wanted,
                ));
            }
            k += 1;
        }
        proof {
            assert(found@ =~= places(*doc, (i + 1) as nat, kind, wanted));
        }
        i += 1;
    }
    found
}

} // verus!
