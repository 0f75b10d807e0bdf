//! The ratings that one review gives to one file.

use vstd::prelude::*;
use vstd::hash_map::StringHashMap;
use crate::schema::unrated_text;

verus! {

/// One review: the ratings given to one file.
///
/// A rating is kept as the decimal text that will stand in the sheet. The
/// file name is not checked against any record.
pub struct ReviewExport {
    pub filename: String,
    pub ratings: StringHashMap<String>,
}

/// What a `ReviewExport` stands for: the file name and the rating text by
/// topic key.
pub ghost struct ReviewExportView {
    pub filename: Seq<char>,
    pub ratings: Map<Seq<char>, Seq<char>>,
}

impl View for ReviewExport {
    type V = ReviewExportView;

    open spec fn view(&self) -> ReviewExportView {
        ReviewExportView {
            filename: self.filename@,
            ratings: Map::new(
                |key: Seq<char>| self.ratings@.contains_key(key),
                |key: Seq<char>| self.ratings@[key]@,
            ),
        }
    }
}

/// The text that a sheet shows for `key`: the rating where `ratings` has one,
/// and the text for an unrated topic where it has none.
pub open spec fn rating_text(ratings: Map<Seq<char>, Seq<char>>, key: Seq<char>) -> Seq<char> {
    if ratings.contains_key(key) {
        ratings[key]
    } else {
        unrated_text()
    }
}

impl ReviewExport {
    /// A review of `filename` that rates nothing yet.
    pub fn new(filename: String) -> (review: ReviewExport)
        ensures
            review@.filename == filename@,
            review@.ratings == Map::<Seq<char>, Seq<char>>::empty(),
    {
        let review = ReviewExport { filename, ratings: StringHashMap::new() };
        assert(review@.ratings =~= Map::<Seq<char>, Seq<char>>::empty());
        review
    }

    /// Records `rating` under `key`, in place of any earlier rating there.
    pub fn set_rating(&mut self, key: String, rating: String)
        ensures
            final(self)@.filename == old(self)@.filename,
            final(self)@.ratings == old(self)@.ratings.insert(key@, rating@),
    {
        self.ratings.insert(key, rating);
        assert(self@.ratings =~= old(self)@.ratings.insert(key@, rating@));
    }

    /// The text that a sheet shows for `key`.
    pub fn rating(&self, key: &str) -> (text: String)
        ensures
            text@ == rating_text(self@.ratings, key@),
    {
        broadcast use vstd::string::to_string_from_display_ensures_for_str;

        match self.ratings.get(key) {
            Some(rating) => rating.clone(),
            None => {
                proof {
                    reveal_strlit("0");
                }
                assert("0"@ =~= unrated_text());
                "0".to_string()
            },
        }
    }
}

} // verus!
