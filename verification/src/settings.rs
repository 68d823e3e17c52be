//! Where the downstream services listen.

use vstd::prelude::*;

verus! {

/// The endpoints of the downstream services. The three `groups_*` endpoints
/// are optional; a missing one switches that branch of the fan-out off.
#[derive(Clone, Debug, PartialEq, Eq)]
pub struct DinoParkSettings {
    pub search_update_endpoint: String,
    pub orgchart_update_endpoint: String,
    pub groups_update_endpoint: Option<String>,
    pub search_bulk_endpoint: String,
    pub orgchart_bulk_endpoint: String,
    pub groups_bulk_endpoint: Option<String>,
    pub search_delete_endpoint: String,
    pub orgchart_delete_endpoint: String,
    pub picture_delete_endpoint: String,
    pub groups_delete_endpoint: Option<String>,
    pub uuid_by_user_id_endpoint: String,
}

/// The endpoints as plain text.
pub struct Endpoints {
    pub search_update: Seq<char>,
    pub orgchart_update: Seq<char>,
    pub groups_update: Option<Seq<char>>,
    pub search_bulk: Seq<char>,
    pub orgchart_bulk: Seq<char>,
    pub groups_bulk: Option<Seq<char>>,
    pub search_delete: Seq<char>,
    pub orgchart_delete: Seq<char>,
    pub picture_delete: Seq<char>,
    pub groups_delete: Option<Seq<char>>,
    pub uuid_by_user_id: Seq<char>,
}

impl DeepView for DinoParkSettings {
    type V = Endpoints;

    open spec fn deep_view(&self) -> Endpoints {
        Endpoints {
            search_update: self.search_update_endpoint@,
            orgchart_update: self.orgchart_update_endpoint@,
            groups_update: self.groups_update_endpoint.deep_view(),
            search_bulk: self.search_bulk_endpoint@,
            orgchart_bulk: self.orgchart_bulk_endpoint@,
            groups_bulk: self.groups_bulk_endpoint.deep_view(),
            search_delete: self.search_delete_endpoint@,
            orgchart_delete: self.orgchart_delete_endpoint@,
            picture_delete: self.picture_delete_endpoint@,
            groups_delete: self.groups_delete_endpoint.deep_view(),
            uuid_by_user_id: self.uuid_by_user_id_endpoint@,
        }
    }
}

} // verus!
