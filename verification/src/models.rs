//! The article record and the raw provider item it is built from.

use vstd::prelude::*;

verus! {

/// Mathematical model of a [`RawArticle`]: each text that is present, as its
/// sequence of characters.
pub struct RawArticleView {
    pub title: Option<Seq<char>>,
    pub source: Option<Seq<char>>,
    pub updated_at: Option<Seq<char>>,
    pub description: Option<Seq<char>>,
    pub url: Option<Seq<char>>,
}

/// One element of a provider's article list, as it was read: every field is
/// absent when the provider left it out or sent something that is not text.
#[derive(Debug, Clone, PartialEq, Eq)]
pub struct RawArticle {
    pub title: Option<String>,
    pub source: Option<String>,
    pub updated_at: Option<String>,
    pub description: Option<String>,
    pub url: Option<String>,
}

impl View for RawArticle {
    type V = RawArticleView;

    open spec fn view(&self) -> RawArticleView {
        RawArticleView {
            title: self.title.deep_view(),
            source: self.source.deep_view(),
            updated_at: self.updated_at.deep_view(),
            description: self.description.deep_view(),
            url: self.url.deep_view(),
        }
    }
}

impl DeepView for RawArticle {
    type V = RawArticleView;

    open spec fn deep_view(&self) -> RawArticleView {
        self.view()
    }
}

/// Mathematical model of a [`NewsArticle`].
pub struct ArticleView {
    pub title: Seq<char>,
    pub source: Option<Seq<char>>,
    pub date: Option<Seq<char>>,
    pub summary: Option<Seq<char>>,
    pub link: Option<Seq<char>>,
}

/// A news article in the uniform shape shared by all providers.
///
/// The title is always there. The other fields keep the distinction between
/// "absent" and "present": no placeholder text is ever stored in them.
#[derive(Debug, Clone, PartialEq, Eq)]
pub struct NewsArticle {
    pub title: String,
    /// Name of the publisher or provider.
    pub source: Option<String>,
    /// The provider's date or timestamp text, kept as it came.
    pub date: Option<String>,
    pub summary: Option<String>,
    /// Address of the article, kept as it came.
    pub link: Option<String>,
}

impl View for NewsArticle {
    type V = ArticleView;

    open spec fn view(&self) -> ArticleView {
        ArticleView {
            title: self.title@,
            source: self.source.deep_view(),
            date: self.date.deep_view(),
            summary: self.summary.deep_view(),
            link: self.link.deep_view(),
        }
    }
}

impl DeepView for NewsArticle {
    type V = ArticleView;

    open spec fn deep_view(&self) -> ArticleView {
        self.view()
    }
}

/// The title given to a record whose provider item carries none.
pub open spec fn untitled() -> Seq<char> {
    "Untitled"@
}

/// The record that a raw item becomes: an absent title is replaced by
/// [`untitled`], the other fields are carried over unchanged under their
/// uniform names.
pub open spec fn article_of(raw: RawArticleView) -> ArticleView {
    ArticleView {
        title: match raw.title {
            Some(title) => title,
            None => untitled(),
        },
        source: raw.source,
        date: raw.updated_at,
        summary: raw.description,
        link: raw.url,
    }
}

impl NewsArticle {
    /// Builds the uniform record for a raw provider item.
    pub fn from_raw(raw: RawArticle) -> (article: NewsArticle)
        ensures
            article@ == article_of(raw@),
    {
        let title = match raw.title {
            Some(title) => title,
            None => String::from_str("Untitled"),
        };
        NewsArticle {
            title,
            source: raw.source,
            date: raw.updated_at,
            summary: raw.description,
            link: raw.url,
        }
    }
}

} // verus!
