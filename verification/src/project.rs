//! The project that a document belongs to.

use vstd::prelude::*;
use vstd::string::*;
use crate::material::holds_text;
use crate::metadata::Metadata;
use crate::scalar::Scalar;

verus! {

/// Where a project is.
#[derive(Debug, Clone)]
pub struct Location {
    /// Name or address.
    pub name: String,
    /// Country.
    pub country: Option<String>,
    /// Longitude and latitude.
    pub coordinates: Option<[Scalar; 2]>,
    /// Coordinate reference system of the coordinates.
    pub crs: Option<String>,
}

/// The dates of a project, each in ISO 8601 form.
#[derive(Debug, Clone)]
pub struct ProjectDates {
    /// Start of the project.
    pub start: Option<String>,
    /// End of the project.
    pub end: Option<String>,
    /// When the data were collected.
    pub data_collection: Option<String>,
}

/// A project descriptor.
#[derive(Debug, Clone)]
pub struct Project {
    /// Project identifier.
    pub id: String,
    /// Project name.
    pub name: String,
    /// Free-text description.
    pub description: Option<String>,
    /// Client name.
    pub client: Option<String>,
    /// Contractor name.
    pub contractor: Option<String>,
    /// Where the project is.
    pub location: Option<Location>,
    /// When the project runs.
    pub dates: Option<ProjectDates>,
    /// Further named values that the schema does not know.
    pub metadata: Metadata,
}

impl Project {
    /// A project with an identifier and a name and nothing else.
    pub fn new(id: &str, name: &str) -> (p: Project)
        ensures
            p.id@ == id@,
            p.name@ == name@,
            p.description.is_none(),
            p.client.is_none(),
            p.contractor.is_none(),
            p.location.is_none(),
            p.dates.is_none(),
            p.metadata@ == Map::<Seq<char>, serde_json::Value>::empty(),
    {
        Project {
            id: String::from_str(id),
            name: String::from_str(name),
            description: None,
            client: None,
            contractor: None,
            location: None,
            dates: None,
            metadata: Metadata::new(),
        }
    }

    /// The same project with its client set.
    pub fn with_client(self, client: &str) -> (p: Project)
        ensures
            holds_text(p.client, client@),
            p == (Project { client: p.client, ..self }),
    {
        let mut p = self;
        p.client = Some(String::from_str(client));
        p
    }

    /// The same project with its contractor set.
    pub fn with_contractor(self, contractor: &str) -> (p: Project)
        ensures
            holds_text(p.contractor, contractor@),
            p == (Project { contractor: p.contractor, ..self }),
    {
        let mut p = self;
        p.contractor = Some(String::from_str(contractor));
        p
    }

    /// The same project with its location set.
    pub fn with_location(self, location: Location) -> (p: Project)
        ensures
            p == (Project { location: Some(location), ..self }),
    {
        let mut p = self;
        p.location = Some(location);
        p
    }

    /// The same project with its dates set.
    pub fn with_dates(self, dates: ProjectDates) -> (p: Project)
        ensures
            p == (Project { dates: Some(dates), ..self }),
    {
        let mut p = self;
        p.dates = Some(dates);
        p
    }
}

impl Location {
    /// A location with a name and nothing else.
    pub fn new(name: &str) -> (l: Location)
        ensures
            l.name@ == name@,
            l.country.is_none(),
            l.coordinates.is_none(),
            l.crs.is_none(),
    {
        Location { name: String::from_str(name), country: None, coordinates: None, crs: None }
    }

    /// The same location with its coordinates and their reference system
    /// set.
    pub fn with_coordinates(self, lon: Scalar, lat: Scalar, crs: Option<String>) -> (l: Location)
        ensures
            l.coordinates matches Some(c) && c@ == seq![lon, lat],
            l == (Location { coordinates: l.coordinates, crs, ..self }),
    {
        let mut l = self;
        let pair = [lon, lat];
        assert(pair@ =~= seq![lon, lat]);
        l.coordinates = Some(pair);
        l.crs = crs;
        l
    }
}

} // verus!
