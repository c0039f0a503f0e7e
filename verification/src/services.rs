//! Services: full entities only; no preview projection exists for them.

use vstd::prelude::*;

use crate::db::{Database, ServiceRow, TagRow};
use crate::error::ApiError;
use crate::site_tag::{spec_tags_for, SiteTag};

verus! {

/// A hosted service with its tags.
pub struct Service {
    pub id: i32,
    pub image: String,
    pub name: String,
    pub description: String,
    pub subdomain: String,
    pub tags: Vec<SiteTag>,
}

/// The service is the row's fields with the row owner's tags attached.
pub open spec fn spec_service_matches(s: Service, row: ServiceRow, tag_rows: Seq<TagRow>) -> bool {
    &&& s.id == row.id
    &&& s.image == row.image
    &&& s.name == row.name
    &&& s.description == row.description
    &&& s.subdomain == row.subdomain
    &&& s.tags@ == spec_tags_for(tag_rows, row.id)
}

/// The services are exactly the given rows, in the same order, each with
/// its tags attached.
pub open spec fn spec_services_match(
    ss: Seq<Service>,
    rows: Seq<ServiceRow>,
    tag_rows: Seq<TagRow>,
) -> bool {
    &&& ss.len() == rows.len()
    &&& forall|i: int|
        0 <= i < rows.len() ==> spec_service_matches(#[trigger] ss[i], rows[i], tag_rows)
}

/// Attaching tags never reorders a list: services that match a row sequence
/// carry the rows' identifiers and names at the rows' own positions.
pub proof fn lemma_services_preserve_row_order(
    ss: Seq<Service>,
    rows: Seq<ServiceRow>,
    tag_rows: Seq<TagRow>,
)
    requires
        spec_services_match(ss, rows, tag_rows),
    ensures
        ss.len() == rows.len(),
        forall|i: int|
            0 <= i < rows.len() ==> (#[trigger] ss[i]).id == rows[i].id && ss[i].name
                == rows[i].name,
{
}

impl Service {
    /// All services, in the row order of the base query, each with its tags
    /// attached; a service with no tags gets the empty list.
    pub fn get_all(db: &Database) -> (r: Result<Vec<Service>, ApiError>)
        ensures
            r matches Ok(ss) && spec_services_match(ss@, db.services@, db.service_tags@),
    {
        let mut ss: Vec<Service> = Vec::new();
        let mut i: usize = 0;
        while i < db.services.len()
            invariant
                i <= db.services@.len(),
                ss@.len() == i,
                forall|j: int|
                    0 <= j < i ==> spec_service_matches(
                        #[trigger] ss@[j],
                        db.services@[j],
                        db.service_tags@,
                    ),
            decreases db.services@.len() - i,
        {
            let row = &db.services[i];
            let tags = match SiteTag::get_service_tags(row.id, db) {
                Ok(tags) => tags,
                Err(e) => return Err(e),
            };
            ss.push(
                Service {
                    id: row.id,
                    image: row.image.clone(),
                    name: row.name.clone(),
                    description: row.description.clone(),
                    subdomain: row.subdomain.clone(),
                    tags,
                },
            );
            i = i + 1;
        }
        Ok(ss)
    }
}

} // verus!
