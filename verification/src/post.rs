//! Posts: full entities and the reduced previews used in list views.

use vstd::prelude::*;

use crate::date::Date;
use crate::db::{Database, PostRow, TagRow};
use crate::error::ApiError;
use crate::site_tag::{spec_tags_for, SiteTag};

verus! {

/// A post with its long-form content and its tags.
pub struct Post {
    pub id: i32,
    pub series_id: i32,
    pub views: i32,
    pub title: String,
    pub short_description: String,
    pub slug: String,
    pub created: Date,
    pub content: String,
    pub tags: Vec<SiteTag>,
}

/// A post as shown in list views: the same fields minus `content`.
pub struct PostPreview {
    pub id: i32,
    pub series_id: i32,
    pub views: i32,
    pub title: String,
    pub short_description: String,
    pub slug: String,
    pub created: Date,
    pub tags: Vec<SiteTag>,
}

/// The preview is the row's fields with the row owner's tags attached.
pub open spec fn spec_preview_matches(p: PostPreview, row: PostRow, tag_rows: Seq<TagRow>) -> bool {
    &&& p.id == row.id
    &&& p.series_id == row.series_id
    &&& p.views == row.views
    &&& p.title == row.title
    &&& p.short_description == row.short_description
    &&& p.slug == row.slug
    &&& p.created == row.created
    &&& p.tags@ == spec_tags_for(tag_rows, row.id)
}

/// The post is the row's fields with the row owner's tags attached.
pub open spec fn spec_post_matches(p: Post, row: PostRow, tag_rows: Seq<TagRow>) -> bool {
    &&& p.id == row.id
    &&& p.series_id == row.series_id
    &&& p.views == row.views
    &&& p.title == row.title
    &&& p.short_description == row.short_description
    &&& p.slug == row.slug
    &&& p.created == row.created
    &&& p.content == row.content
    &&& p.tags@ == spec_tags_for(tag_rows, row.id)
}

/// The previews are exactly the given rows, in the same order, each with its
/// tags attached.
pub open spec fn spec_previews_match(
    ps: Seq<PostPreview>,
    rows: Seq<PostRow>,
    tag_rows: Seq<TagRow>,
) -> bool {
    &&& ps.len() == rows.len()
    &&& forall|i: int| 0 <= i < rows.len() ==> spec_preview_matches(#[trigger] ps[i], rows[i], tag_rows)
}

/// Attaching tags never reorders a list: previews that match a row sequence
/// carry the rows' identifiers and slugs at the rows' own positions.
pub proof fn lemma_previews_preserve_row_order(
    ps: Seq<PostPreview>,
    rows: Seq<PostRow>,
    tag_rows: Seq<TagRow>,
)
    requires
        spec_previews_match(ps, rows, tag_rows),
    ensures
        ps.len() == rows.len(),
        forall|i: int|
            0 <= i < rows.len() ==> (#[trigger] ps[i]).id == rows[i].id && ps[i].slug
                == rows[i].slug,
{
}

/// The post rows that belong to the series with the given identifier, in
/// row order.
pub open spec fn spec_rows_for_series(rows: Seq<PostRow>, series_id: i32) -> Seq<PostRow>
    decreases rows.len(),
{
    if rows.len() == 0 {
        Seq::empty()
    } else if rows.last().series_id == series_id {
        spec_rows_for_series(rows.drop_last(), series_id).push(rows.last())
    } else {
        spec_rows_for_series(rows.drop_last(), series_id)
    }
}

/// Every row selected for a series carries that series' identifier.
pub proof fn lemma_series_rows_have_series_id(rows: Seq<PostRow>, series_id: i32)
    ensures
        forall|j: int|
            0 <= j < spec_rows_for_series(rows, series_id).len()
                ==> (#[trigger] spec_rows_for_series(rows, series_id)[j]).series_id == series_id,
    decreases rows.len(),
{
    if rows.len() > 0 {
        lemma_series_rows_have_series_id(rows.drop_last(), series_id);
        let prefix = spec_rows_for_series(rows.drop_last(), series_id);
        let whole = spec_rows_for_series(rows, series_id);
        if rows.last().series_id == series_id {
            assert forall|j: int| 0 <= j < whole.len() implies (#[trigger] whole[j]).series_id
                == series_id by {
                if j < prefix.len() {
                    assert(whole[j] == prefix[j]);
                } else {
                    assert(whole[j] == rows.last());
                }
            }
        }
    }
}

/// The first row whose slug reads as the given text, if any.
pub open spec fn spec_find_by_slug(rows: Seq<PostRow>, slug: Seq<char>) -> Option<PostRow>
    decreases rows.len(),
{
    if rows.len() == 0 {
        None
    } else if rows.first().slug@ == slug {
        Some(rows.first())
    } else {
        spec_find_by_slug(rows.drop_first(), slug)
    }
}

/// A slug names at most one post.
pub open spec fn spec_post_slugs_unique(rows: Seq<PostRow>) -> bool {
    forall|i: int, j: int|
        0 <= i < j < rows.len() ==> (#[trigger] rows[i]).slug@ != (#[trigger] rows[j]).slug@
}

/// Slug lookup finds a row exactly when one carries the slug: a hit is some
/// row whose slug matches, and a miss means no row's slug does.
pub proof fn lemma_find_by_slug_is_match(rows: Seq<PostRow>, slug: Seq<char>)
    ensures
        match spec_find_by_slug(rows, slug) {
            Some(row) => exists|i: int|
                0 <= i < rows.len() && rows[i] == row && (#[trigger] rows[i]).slug@ == slug,
            None => forall|i: int| 0 <= i < rows.len() ==> (#[trigger] rows[i]).slug@ != slug,
        },
    decreases rows.len(),
{
    if rows.len() == 0 {
    } else if rows.first().slug@ == slug {
        assert(rows[0] == rows.first());
    } else {
        let rest = rows.drop_first();
        lemma_find_by_slug_is_match(rest, slug);
        match spec_find_by_slug(rows, slug) {
            Some(row) => {
                let i = choose|i: int|
                    0 <= i < rest.len() && rest[i] == row && (#[trigger] rest[i]).slug@ == slug;
                assert(rows[i + 1] == rest[i]);
            },
            None => {
                assert forall|i: int| 0 <= i < rows.len() implies (#[trigger] rows[i]).slug@
                    != slug by {
                    if i > 0 {
                        assert(rows[i] == rest[i - 1]);
                    } else {
                        assert(rows[0] == rows.first());
                    }
                }
            },
        }
    }
}

/// When slugs are unique, slug lookup finds exactly the row that carries the
/// slug, wherever it stands.
pub proof fn lemma_find_by_slug_unique(rows: Seq<PostRow>, slug: Seq<char>, k: int)
    requires
        spec_post_slugs_unique(rows),
        0 <= k < rows.len(),
        rows[k].slug@ == slug,
    ensures
        spec_find_by_slug(rows, slug) == Some(rows[k]),
    decreases rows.len(),
{
    assert(rows.first() == rows[0]);
    if rows.first().slug@ == slug {
        assert(k == 0);
    } else {
        let rest = rows.drop_first();
        assert forall|i: int, j: int|
            0 <= i < j < rest.len() implies (#[trigger] rest[i]).slug@ != (
        #[trigger] rest[j]).slug@ by {
            assert(rest[i] == rows[i + 1]);
            assert(rest[j] == rows[j + 1]);
        }
        assert(rest[k - 1] == rows[k]);
        lemma_find_by_slug_unique(rest, slug, k - 1);
    }
}

/// Builds the preview of one row, attaching the row owner's tags.
fn preview_of_row(row: &PostRow, db: &Database) -> (r: Result<PostPreview, ApiError>)
    ensures
        r matches Ok(p) && spec_preview_matches(p, *row, db.post_tags@),
{
    let tags = match SiteTag::get_post_tags(row.id, db) {
        Ok(tags) => tags,
        Err(e) => return Err(e),
    };
    Ok(
        PostPreview {
            id: row.id,
            series_id: row.series_id,
            views: row.views,
            title: row.title.clone(),
            short_description: row.short_description.clone(),
            slug: row.slug.clone(),
            created: row.created,
            tags,
        },
    )
}

impl Post {
    /// Previews of all posts, in the row order of the base query, each with
    /// its tags attached; an entity with no tags gets the empty list.
    pub fn get_all_previews(db: &Database) -> (r: Result<Vec<PostPreview>, ApiError>)
        ensures
            r matches Ok(ps) && spec_previews_match(ps@, db.posts@, db.post_tags@),
    {
        let mut ps: Vec<PostPreview> = Vec::new();
        let mut i: usize = 0;
        while i < db.posts.len()
            invariant
                i <= db.posts@.len(),
                ps@.len() == i,
                forall|j: int|
                    0 <= j < i ==> spec_preview_matches(#[trigger] ps@[j], db.posts@[j], db.post_tags@),
            decreases db.posts@.len() - i,
        {
            let p = match preview_of_row(&db.posts[i], db) {
                Ok(p) => p,
                Err(e) => return Err(e),
            };
            ps.push(p);
            i = i + 1;
        }
        Ok(ps)
    }

    /// Previews of the posts that belong to the given series, in row order,
    /// each with its tags attached.
    pub fn get_series_post_previews(series_id: i32, db: &Database) -> (r: Result<
        Vec<PostPreview>,
        ApiError,
    >)
        ensures
            r matches Ok(ps) && spec_previews_match(
                ps@,
                spec_rows_for_series(db.posts@, series_id),
                db.post_tags@,
            ),
    {
        let mut ps: Vec<PostPreview> = Vec::new();
        let mut i: usize = 0;
        while i < db.posts.len()
            invariant
                i <= db.posts@.len(),
                spec_previews_match(
                    ps@,
                    spec_rows_for_series(db.posts@.take(i as int), series_id),
                    db.post_tags@,
                ),
            decreases db.posts@.len() - i,
        {
            proof {
                assert(db.posts@.take(i + 1).drop_last() == db.posts@.take(i as int));
                assert(db.posts@.take(i + 1).last() == db.posts@[i as int]);
            }
            if db.posts[i].series_id == series_id {
                let p = match preview_of_row(&db.posts[i], db) {
                    Ok(p) => p,
                    Err(e) => return Err(e),
                };
                ps.push(p);
            }
            i = i + 1;
        }
        proof {
            assert(db.posts@.take(db.posts@.len() as int) == db.posts@);
        }
        Ok(ps)
    }

    /// The single post whose slug matches, with its tags attached, or
    /// `NotFound` when no row matches: an unknown slug is a signaled
    /// failure, never a crash.
    pub fn get_post_by_slug(slug: &String, db: &Database) -> (r: Result<Post, ApiError>)
        ensures
            match spec_find_by_slug(db.posts@, slug@) {
                Some(row) => r matches Ok(p) && spec_post_matches(p, row, db.post_tags@),
                None => r matches Err(ApiError::NotFound),
            },
    {
        let mut i: usize = 0;
        proof {
            assert(db.posts@.skip(0) == db.posts@);
        }
        while i < db.posts.len()
            invariant
                i <= db.posts@.len(),
                spec_find_by_slug(db.posts@, slug@) == spec_find_by_slug(
                    db.posts@.skip(i as int),
                    slug@,
                ),
            decreases db.posts@.len() - i,
        {
            proof {
                assert(db.posts@.skip(i as int).first() == db.posts@[i as int]);
                assert(db.posts@.skip(i as int).drop_first() == db.posts@.skip(i + 1));
            }
            if db.posts[i].slug == *slug {
                let row = &db.posts[i];
                let tags = match SiteTag::get_post_tags(row.id, db) {
                    Ok(tags) => tags,
                    Err(e) => return Err(e),
                };
                return Ok(
                    Post {
                        id: row.id,
                        series_id: row.series_id,
                        views: row.views,
                        title: row.title.clone(),
                        short_description: row.short_description.clone(),
                        slug: row.slug.clone(),
                        created: row.created,
                        content: row.content.clone(),
                        tags,
                    },
                );
            }
            i = i + 1;
        }
        proof {
            assert(db.posts@.skip(db.posts@.len() as int).len() == 0);
        }
        Err(ApiError::NotFound)
    }
}

} // verus!
