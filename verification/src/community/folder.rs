//! Folder Module

use vstd::prelude::*;

use crate::common::cloning::{clone_opt_string, clone_opt_string_vec};
use crate::common::json::{
    JsonData, bool_field, opt_str_arr_field, opt_str_field, spec_bool_field,
    spec_opt_str_arr_field, spec_opt_str_field, spec_str_field, spec_u64_field, str_field,
    u64_field, value_is_obj, value_model,
};

verus! {

/// Ghost model of a [`FolderModel`].
pub ghost struct FolderModelV {
    /// Numerical id
    pub id: u32,
    /// Unique id text
    pub uid: Option<Seq<char>>,
    /// Folder name text
    pub title: Seq<char>,
    /// URL text
    pub url: Option<Seq<char>>,
    /// Object type text
    pub kind: Option<Seq<char>>,
    /// Tag texts
    pub tags: Option<Seq<Seq<char>>>,
    /// Starred flag
    pub is_starred: bool,
    /// Legacy URI text
    pub uri: Option<Seq<char>>,
}

/// Data model for a folder
#[derive(Debug, PartialEq)]
pub struct FolderModel {
    /// Numerical Id
    pub id: u32,
    /// Text-based ID
    pub uid: Option<String>,
    /// Folder name
    pub title: String,
    /// URL to GUI object
    pub url: Option<String>,
    /// Type of object
    pub kind: Option<String>,
    /// Optional Tag array
    pub tags: Option<Vec<String>>,
    /// Is this folder starred?
    pub is_starred: bool,
    /// Legacy URI
    pub uri: Option<String>,
}

impl View for FolderModel {
    type V = FolderModelV;

    open spec fn view(&self) -> FolderModelV {
        FolderModelV {
            id: self.id,
            uid: self.uid.deep_view(),
            title: self.title@,
            url: self.url.deep_view(),
            kind: self.kind.deep_view(),
            tags: self.tags.deep_view(),
            is_starred: self.is_starred,
            uri: self.uri.deep_view(),
        }
    }
}

impl DeepView for FolderModel {
    type V = FolderModelV;

    open spec fn deep_view(&self) -> FolderModelV {
        self.view()
    }
}

impl Clone for FolderModel {
    /// Clones have the same model as the original.
    fn clone(&self) -> (r: Self)
        ensures
            r@ == self@,
    {
        let r = FolderModel {
            id: self.id,
            uid: clone_opt_string(&self.uid),
            title: self.title.clone(),
            url: clone_opt_string(&self.url),
            kind: clone_opt_string(&self.kind),
            tags: clone_opt_string_vec(&self.tags),
            is_starred: self.is_starred,
            uri: clone_opt_string(&self.uri),
        };
        proof {
            assert(r.tags.deep_view() =~~= self.tags.deep_view());
        }
        r
    }
}

impl FolderModel {
    /// Create empty FolderModel instance
    pub fn new(title: String) -> (m: FolderModel)
        ensures
            m@ == (FolderModelV {
                id: 0,
                uid: None,
                title: title@,
                url: None,
                kind: None,
                tags: None,
                is_starred: false,
                uri: None,
            }),
    {
        FolderModel {
            id: 0,
            uid: None,
            title,
            url: None,
            kind: None,
            tags: None,
            is_starred: false,
            uri: None,
        }
    }
}

/// Decoding of a folder from a JSON document: an object with required
/// `id`, `title` and `isStarred` members and optional text members.
pub open spec fn spec_folder_of(j: JsonData) -> Option<FolderModelV> {
    match j {
        JsonData::Obj(m) => match (
            spec_u64_field(m, "id"@, u32::MAX as u64),
            spec_opt_str_field(m, "uid"@),
            spec_str_field(m, "title"@),
            spec_opt_str_field(m, "url"@),
            spec_opt_str_field(m, "type"@),
            spec_opt_str_arr_field(m, "tags"@),
            spec_bool_field(m, "isStarred"@),
            spec_opt_str_field(m, "uri"@),
        ) {
            (
                Some(id),
                Some(uid),
                Some(title),
                Some(url),
                Some(kind),
                Some(tags),
                Some(is_starred),
                Some(uri),
            ) => Some(
                FolderModelV { id: id as u32, uid, title, url, kind, tags, is_starred, uri },
            ),
            _ => None,
        },
        _ => None,
    }
}

/// Whether every element of `a` decodes as a folder.
pub open spec fn all_folders(a: Seq<JsonData>) -> bool {
    forall|i: int| 0 <= i < a.len() ==> spec_folder_of(a[i]) is Some
}

/// The models of a sequence of folder documents.
pub open spec fn folders_of(a: Seq<JsonData>) -> Seq<FolderModelV> {
    a.map_values(|j: JsonData| spec_folder_of(j)->0)
}

/// Decoding of a folder list from a JSON document.
pub open spec fn spec_folder_list_of(j: JsonData) -> Option<Seq<FolderModelV>> {
    match j {
        JsonData::Arr(a) => if all_folders(a) {
            Some(folders_of(a))
        } else {
            None
        },
        _ => None,
    }
}

/// Decodes a folder from a JSON value.
pub fn folder_from_value(v: &serde_json::Value) -> (r: Result<FolderModel, ()>)
    ensures
        match spec_folder_of(value_model(*v)) {
            Some(m) => r is Ok && r->Ok_0@ == m,
            None => r is Err,
        },
{
    if !value_is_obj(v) {
        return Err(());
    }
    let id = match u64_field(v, "id", u32::MAX as u64) {
        Ok(n) => n,
        Err(_) => {
            return Err(());
        },
    };
    let uid = match opt_str_field(v, "uid") {
        Ok(o) => o,
        Err(_) => {
            return Err(());
        },
    };
    let title = match str_field(v, "title") {
        Ok(t) => t,
        Err(_) => {
            return Err(());
        },
    };
    let url = match opt_str_field(v, "url") {
        Ok(o) => o,
        Err(_) => {
            return Err(());
        },
    };
    let kind = match opt_str_field(v, "type") {
        Ok(o) => o,
        Err(_) => {
            return Err(());
        },
    };
    let tags = match opt_str_arr_field(v, "tags") {
        Ok(o) => o,
        Err(_) => {
            return Err(());
        },
    };
    let is_starred = match bool_field(v, "isStarred") {
        Ok(b) => b,
        Err(_) => {
            return Err(());
        },
    };
    let uri = match opt_str_field(v, "uri") {
        Ok(o) => o,
        Err(_) => {
            return Err(());
        },
    };
    Ok(FolderModel { id: id as u32, uid, title, url, kind, tags, is_starred, uri })
}

/// Ghost model of a [`Folder`] API value.
pub ghost struct FolderV {
    /// Pending folder model, if one is attached
    pub model: Option<FolderModelV>,
}

/// Folder Struct
#[derive(Debug, PartialEq)]
pub struct Folder {
    model: Option<FolderModel>,
}

impl View for Folder {
    type V = FolderV;

    closed spec fn view(&self) -> FolderV {
        FolderV { model: self.model.deep_view() }
    }
}

/// Copies an optional folder model.
fn clone_opt_folder_model(o: &Option<FolderModel>) -> (r: Option<FolderModel>)
    ensures
        r.deep_view() == o.deep_view(),
{
    match o {
        Some(m) => Some(m.clone()),
        None => None,
    }
}

impl Clone for Folder {
    /// Clones have the same model as the original.
    fn clone(&self) -> (r: Self)
        ensures
            r@ == self@,
    {
        Folder { model: clone_opt_folder_model(&self.model) }
    }
}

impl Folder {
    /// Create empty instance of folder API
    pub fn new() -> (f: Folder)
        ensures
            f@ == (FolderV { model: None }),
    {
        Folder { model: None }
    }

    /// Attach a folder model to be created in Grafana.
    pub fn create(self, model: FolderModel) -> (f: Folder)
        ensures
            f@ == (FolderV { model: Some(model@) }),
    {
        Folder { model: Some(model) }
    }

    /// Send folder to Grafana: a deliberate placeholder that performs no
    /// network call and reports the operation as not implemented.
    pub fn send(&self) -> (r: Result<String, String>)
        ensures
            r is Err,
            r->Err_0@ == "Create Folder: Not implemented"@,
    {
        Err(String::from_str("Create Folder: Not implemented"))
    }
}

} // verus!
