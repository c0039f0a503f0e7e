//! Series: full entities with their nested post previews, and the reduced
//! previews used in list views.

use vstd::prelude::*;

use crate::date::Date;
use crate::db::{Database, SeriesRow, TagRow};
use crate::error::ApiError;
use crate::post::{spec_previews_match, spec_rows_for_series, Post, PostPreview};
use crate::site_tag::{spec_tags_for, SiteTag};

verus! {

/// A series with its long-form description, its tags, and the previews of
/// the posts that belong to it.
pub struct Series {
    pub id: i32,
    pub views: i32,
    pub title: String,
    pub long_description: String,
    pub slug: String,
    pub created: Date,
    pub updated: Date,
    pub tags: Vec<SiteTag>,
    pub posts: Vec<PostPreview>,
}

/// A series as shown in list views: no long description and no nested
/// posts, a short description instead.
pub struct SeriesPreview {
    pub id: i32,
    pub views: i32,
    pub title: String,
    pub short_description: String,
    pub slug: String,
    pub created: Date,
    pub updated: Date,
    pub tags: Vec<SiteTag>,
}

/// The preview is the row's fields with the row owner's tags attached.
pub open spec fn spec_series_preview_matches(
    p: SeriesPreview,
    row: SeriesRow,
    tag_rows: Seq<TagRow>,
) -> bool {
    &&& p.id == row.id
    &&& p.views == row.views
    &&& p.title == row.title
    &&& p.short_description == row.short_description
    &&& p.slug == row.slug
    &&& p.created == row.created
    &&& p.updated == row.updated
    &&& p.tags@ == spec_tags_for(tag_rows, row.id)
}

/// The previews are exactly the given rows, in the same order, each with
/// its tags attached.
pub open spec fn spec_series_previews_match(
    ps: Seq<SeriesPreview>,
    rows: Seq<SeriesRow>,
    tag_rows: Seq<TagRow>,
) -> bool {
    &&& ps.len() == rows.len()
    &&& forall|i: int|
        0 <= i < rows.len() ==> spec_series_preview_matches(#[trigger] ps[i], rows[i], tag_rows)
}

/// Attaching tags never reorders a list: series previews that match a row
/// sequence carry the rows' identifiers and slugs at the rows' own
/// positions.
pub proof fn lemma_series_previews_preserve_row_order(
    ps: Seq<SeriesPreview>,
    rows: Seq<SeriesRow>,
    tag_rows: Seq<TagRow>,
)
    requires
        spec_series_previews_match(ps, rows, tag_rows),
    ensures
        ps.len() == rows.len(),
        forall|i: int|
            0 <= i < rows.len() ==> (#[trigger] ps[i]).id == rows[i].id && ps[i].slug
                == rows[i].slug,
{
}

/// The series is the row's fields with the row owner's tags attached and
/// with the previews of exactly the posts whose `series_id` is the row's
/// identifier, in post-row order.
pub open spec fn spec_series_matches(s: Series, row: SeriesRow, db: Database) -> bool {
    &&& s.id == row.id
    &&& s.views == row.views
    &&& s.title == row.title
    &&& s.long_description == row.long_description
    &&& s.slug == row.slug
    &&& s.created == row.created
    &&& s.updated == row.updated
    &&& s.tags@ == spec_tags_for(db.series_tags@, row.id)
    &&& spec_previews_match(s.posts@, spec_rows_for_series(db.posts@, row.id), db.post_tags@)
}

/// A series assembled for a row holds previews of exactly the post rows
/// whose `series_id` is the series' identifier, in post-row order, and each
/// such preview's own `series_id` field names that series.
pub proof fn lemma_series_posts_belong_to_series(s: Series, row: SeriesRow, db: Database)
    requires
        spec_series_matches(s, row, db),
    ensures
        s.posts@.len() == spec_rows_for_series(db.posts@, row.id).len(),
        forall|j: int| 0 <= j < s.posts@.len() ==> (#[trigger] s.posts@[j]).series_id == s.id,
{
    crate::post::lemma_series_rows_have_series_id(db.posts@, row.id);
}

/// The first row whose slug reads as the given text, if any.
pub open spec fn spec_find_series_by_slug(rows: Seq<SeriesRow>, slug: Seq<char>) -> Option<
    SeriesRow,
>
    decreases rows.len(),
{
    if rows.len() == 0 {
        None
    } else if rows.first().slug@ == slug {
        Some(rows.first())
    } else {
        spec_find_series_by_slug(rows.drop_first(), slug)
    }
}

/// A slug names at most one series.
pub open spec fn spec_series_slugs_unique(rows: Seq<SeriesRow>) -> bool {
    forall|i: int, j: int|
        0 <= i < j < rows.len() ==> (#[trigger] rows[i]).slug@ != (#[trigger] rows[j]).slug@
}

/// Slug lookup finds a row exactly when one carries the slug: a hit is some
/// row whose slug matches, and a miss means no row's slug does.
pub proof fn lemma_find_series_by_slug_is_match(rows: Seq<SeriesRow>, slug: Seq<char>)
    ensures
        match spec_find_series_by_slug(rows, slug) {
            Some(row) => exists|i: int|
                0 <= i < rows.len() && rows[i] == row && (#[trigger] rows[i]).slug@ == slug,
            None => forall|i: int| 0 <= i < rows.len() ==> (#[trigger] rows[i]).slug@ != slug,
        },
    decreases rows.len(),
{
    if rows.len() == 0 {
    } else if rows.first().slug@ == slug {
        assert(rows[0] == rows.first());
    } else {
        let rest = rows.drop_first();
        lemma_find_series_by_slug_is_match(rest, slug);
        match spec_find_series_by_slug(rows, slug) {
            Some(row) => {
                let i = choose|i: int|
                    0 <= i < rest.len() && rest[i] == row && (#[trigger] rest[i]).slug@ == slug;
                assert(rows[i + 1] == rest[i]);
            },
            None => {
                assert forall|i: int| 0 <= i < rows.len() implies (#[trigger] rows[i]).slug@
                    != slug by {
                    if i > 0 {
                        assert(rows[i] == rest[i - 1]);
                    } else {
                        assert(rows[0] == rows.first());
                    }
                }
            },
        }
    }
}

/// When slugs are unique, slug lookup finds exactly the row that carries the
/// slug, wherever it stands.
pub proof fn lemma_find_series_by_slug_unique(rows: Seq<SeriesRow>, slug: Seq<char>, k: int)
    requires
        spec_series_slugs_unique(rows),
        0 <= k < rows.len(),
        rows[k].slug@ == slug,
    ensures
        spec_find_series_by_slug(rows, slug) == Some(rows[k]),
    decreases rows.len(),
{
    assert(rows.first() == rows[0]);
    if rows.first().slug@ == slug {
        assert(k == 0);
    } else {
        let rest = rows.drop_first();
        assert forall|i: int, j: int|
            0 <= i < j < rest.len() implies (#[trigger] rest[i]).slug@ != (
        #[trigger] rest[j]).slug@ by {
            assert(rest[i] == rows[i + 1]);
            assert(rest[j] == rows[j + 1]);
        }
        assert(rest[k - 1] == rows[k]);
        lemma_find_series_by_slug_unique(rest, slug, k - 1);
    }
}

impl Series {
    /// Previews of all series, in the row order of the base query, each
    /// with its tags attached; a series with no tags gets the empty list.
    pub fn get_all_previews(db: &Database) -> (r: Result<Vec<SeriesPreview>, ApiError>)
        ensures
            r matches Ok(ps) && spec_series_previews_match(ps@, db.series@, db.series_tags@),
    {
        let mut ps: Vec<SeriesPreview> = Vec::new();
        let mut i: usize = 0;
        while i < db.series.len()
            invariant
                i <= db.series@.len(),
                ps@.len() == i,
                forall|j: int|
                    0 <= j < i ==> spec_series_preview_matches(
                        #[trigger] ps@[j],
                        db.series@[j],
                        db.series_tags@,
                    ),
            decreases db.series@.len() - i,
        {
            let row = &db.series[i];
            let tags = match SiteTag::get_series_tags(row.id, db) {
                Ok(tags) => tags,
                Err(e) => return Err(e),
            };
            ps.push(
                SeriesPreview {
                    id: row.id,
                    views: row.views,
                    title: row.title.clone(),
                    short_description: row.short_description.clone(),
                    slug: row.slug.clone(),
                    created: row.created,
                    updated: row.updated,
                    tags,
                },
            );
            i = i + 1;
        }
        Ok(ps)
    }

    /// The single series whose slug matches, with its tags and the previews
    /// of its posts attached, or `NotFound` when no row matches. Both
    /// enrichment steps run only after the base row is found; a failure in
    /// either fails the whole call.
    pub fn get_series_by_slug(slug: String, db: &Database) -> (r: Result<Series, ApiError>)
        ensures
            match spec_find_series_by_slug(db.series@, slug@) {
                Some(row) => r matches Ok(s) && spec_series_matches(s, row, *db),
                None => r matches Err(ApiError::NotFound),
            },
    {
        let mut i: usize = 0;
        proof {
            assert(db.series@.skip(0) == db.series@);
        }
        while i < db.series.len()
            invariant
                i <= db.series@.len(),
                spec_find_series_by_slug(db.series@, slug@) == spec_find_series_by_slug(
                    db.series@.skip(i as int),
                    slug@,
                ),
            decreases db.series@.len() - i,
        {
            proof {
                assert(db.series@.skip(i as int).first() == db.series@[i as int]);
                assert(db.series@.skip(i as int).drop_first() == db.series@.skip(i + 1));
            }
            if db.series[i].slug == slug {
                let row = &db.series[i];
                let tags = match SiteTag::get_series_tags(row.id, db) {
                    Ok(tags) => tags,
                    Err(e) => return Err(e),
                };
                let posts = match Post::get_series_post_previews(row.id, db) {
                    Ok(posts) => posts,
                    Err(e) => return Err(e),
                };
                return Ok(
                    Series {
                        id: row.id,
                        views: row.views,
                        title: row.title.clone(),
                        long_description: row.long_description.clone(),
                        slug: row.slug.clone(),
                        created: row.created,
                        updated: row.updated,
                        tags,
                        posts,
                    },
                );
            }
            i = i + 1;
        }
        proof {
            assert(db.series@.skip(db.series@.len() as int).len() == 0);
        }
        Err(ApiError::NotFound)
    }
}

} // verus!
