//! One catalog source found on disk: where it lay, the locale code taken
//! from the file's base name, and the file's full text. The host does the
//! directory walk and the reading; this type carries what was read and
//! compiles it into the locale's catalog.

use vstd::prelude::*;
use fluent::FluentBundle;
use fluent::FluentResource;
use crate::fluent_api::add_content;
use crate::fluent_api::catalog_entries;
use crate::fluent_api::catalog_functions;
use crate::fluent_api::catalog_ids;
use crate::fluent_api::catalog_literals;
use crate::fluent_api::catalog_plain;
use crate::fluent_api::catalog_valued;
use crate::fluent_api::ftl_clean;
use crate::fluent_api::ftl_entries;
use crate::fluent_api::ftl_ids;
use crate::fluent_api::ftl_literals;
use crate::fluent_api::ftl_valued;
use crate::fluent_api::langid_ok;
use crate::fluent_api::new_catalog;
use crate::functions::add_functions;

verus! {

/// A catalog source: its file path, its locale code, its text.
pub struct LocalizationResource {
    pub file_path: String,
    pub code: String,
    pub content: String,
}

impl LocalizationResource {
    /// Bundle up one catalog source the host found on disk.
    pub fn new(file_path: String, code: String, content: String) -> (r: Self)
        ensures
            r.file_path == file_path,
            r.code == code,
            r.content == content,
    {
        LocalizationResource { file_path, code, content }
    }

    /// Where the catalog file lay.
    pub fn path(&self) -> (r: &str)
        ensures
            r@ == self.file_path@,
    {
        self.file_path.as_str()
    }

    /// The locale code, taken from the file's base name.
    pub fn code(&self) -> (r: &str)
        ensures
            r@ == self.code@,
    {
        self.code.as_str()
    }

    /// The catalog's full source text.
    pub fn content(&self) -> (r: &str)
        ensures
            r@ == self.content@,
    {
        self.content.as_str()
    }

    /// Compile this source into its locale's catalog, with the grammar
    /// functions registered. This succeeds exactly when the locale code is
    /// a well-formed language identifier, the text parses cleanly, and no
    /// entry of the text takes a grammar function's name; the catalog then
    /// holds exactly the messages fluent parses out of the text and
    /// dispatches exactly the three grammar functions.
    pub fn to_bundle(&self) -> (r: Option<FluentBundle<FluentResource>>)
        ensures
            (r is Some) == (langid_ok(self.code@) && ftl_clean(self.content@) && !ftl_entries(
                self.content@,
            ).contains("PICK"@) && !ftl_entries(self.content@).contains("THE"@) && !ftl_entries(
                self.content@,
            ).contains("A"@)),
            r matches Some(b) ==> catalog_ids(b) == ftl_ids(self.content@) && catalog_valued(b)
                == ftl_valued(self.content@) && catalog_functions(b) == Set::<Seq<char>>::empty()
                .insert("PICK"@).insert("THE"@).insert("A"@) && catalog_literals(b)
                == ftl_literals(self.content@) && catalog_plain(b),
    {
        let mut b = match new_catalog(self.code.as_str()) {
            None => {
                return None;
            },
            Some(v) => v,
        };
        proof {
            assert(catalog_entries(b).disjoint(ftl_entries(self.content@)));
        }
        if !add_content(&mut b, self.content.as_str()) {
            return None;
        }
        proof {
            assert(catalog_entries(b) =~= ftl_entries(self.content@));
        }
        if !add_functions(&mut b) {
            return None;
        }
        proof {
            assert(catalog_ids(b) =~= ftl_ids(self.content@));
            assert(catalog_valued(b) =~= ftl_valued(self.content@));
            assert(catalog_literals(b) =~= ftl_literals(self.content@));
        }
        Some(b)
    }
}

} // verus!
