use vstd::prelude::*;
use vstd::string::StringExecFns;

verus! {

/// The text held by an optional string.
pub open spec fn opt_view(o: Option<String>) -> Option<Seq<char>> {
    match o {
        Some(s) => Some(s@),
        None => None,
    }
}

/// The text held by an optional string slice.
pub open spec fn opt_str_view(o: Option<&str>) -> Option<Seq<char>> {
    match o {
        Some(s) => Some(s@),
        None => None,
    }
}

fn to_owned_opt(o: Option<&str>) -> (r: Option<String>)
    ensures
        opt_view(r) == opt_str_view(o),
{
    match o {
        Some(s) => Some(s.to_owned()),
        None => None,
    }
}

/// Application metadata shown by the about dialog.
#[derive(Debug, Clone)]
pub struct AboutMetadata {
    /// The application name.
    pub name: Option<String>,
    /// The application version.
    pub version: Option<String>,
    /// The short version, e.g. "1.0", shown after the version in parentheses.
    pub short_version: Option<String>,
    /// The authors of the application.
    pub authors: Option<Vec<String>>,
    /// Application comments.
    pub comments: Option<String>,
    /// The copyright of the application.
    pub copyright: Option<String>,
    /// The license of the application.
    pub license: Option<String>,
    /// The application website.
    pub website: Option<String>,
    /// The label of the website link.
    pub website_label: Option<String>,
}

impl Default for AboutMetadata {
    fn default() -> (r: Self)
        ensures
            r.is_empty(),
    {
        AboutMetadata {
            name: None,
            version: None,
            short_version: None,
            authors: None,
            comments: None,
            copyright: None,
            license: None,
            website: None,
            website_label: None,
        }
    }
}

impl AboutMetadata {
    /// No field is set.
    pub open spec fn is_empty(&self) -> bool {
        &&& self.name is None
        &&& self.version is None
        &&& self.short_version is None
        &&& self.authors is None
        &&& self.comments is None
        &&& self.copyright is None
        &&& self.license is None
        &&& self.website is None
        &&& self.website_label is None
    }

    /// The version followed by the short version in parentheses, when there is a version.
    pub open spec fn full_version_spec(&self) -> Option<Seq<char>> {
        match self.version {
            None => None,
            Some(v) => match self.short_version {
                Some(s) => Some(v@ + " ("@ + s@ + ")"@),
                None => Some(v@),
            },
        }
    }

    /// The version followed by the short version in parentheses (`"1.0.2 (1.0)"`), or
    /// `None` where no version is set.
    pub fn full_version(&self) -> (r: Option<String>)
        ensures
            opt_view(r) == self.full_version_spec(),
    {
        match &self.version {
            None => None,
            Some(v) => match &self.short_version {
                Some(s) => {
                    let mut r = v.clone();
                    r.append(" (");
                    r.append(s.as_str());
                    r.append(")");
                    assert(r@ == v@ + " ("@ + s@ + ")"@);
                    Some(r)
                },
                None => Some(v.clone()),
            },
        }
    }
}

/// Builds an [`AboutMetadata`] one field at a time.
#[derive(Debug, Clone)]
pub struct AboutMetadataBuilder(AboutMetadata);

impl AboutMetadataBuilder {
    /// The metadata built so far.
    pub closed spec fn metadata(&self) -> AboutMetadata {
        self.0
    }

    /// Starts with no field set.
    pub fn new() -> (r: Self)
        ensures
            r.metadata().is_empty(),
    {
        AboutMetadataBuilder(AboutMetadata::default())
    }

    /// Sets the application name.
    pub fn name(self, name: Option<&str>) -> (r: Self)
        ensures
            opt_view(r.metadata().name) == opt_str_view(name),
            r.metadata() == (AboutMetadata { name: r.metadata().name, ..self.metadata() }),
    {
        let mut m = self.0;
        m.name = to_owned_opt(name);
        AboutMetadataBuilder(m)
    }

    /// Sets the application version.
    pub fn version(self, version: Option<&str>) -> (r: Self)
        ensures
            opt_view(r.metadata().version) == opt_str_view(version),
            r.metadata() == (AboutMetadata { version: r.metadata().version, ..self.metadata() }),
    {
        let mut m = self.0;
        m.version = to_owned_opt(version);
        AboutMetadataBuilder(m)
    }

    /// Sets the short version, e.g. "1.0", shown after the version in parentheses.
    pub fn short_version(self, short_version: Option<&str>) -> (r: Self)
        ensures
            opt_view(r.metadata().short_version) == opt_str_view(short_version),
            r.metadata() == (AboutMetadata { short_version: r.metadata().short_version, ..self.metadata() }),
    {
        let mut m = self.0;
        m.short_version = to_owned_opt(short_version);
        AboutMetadataBuilder(m)
    }

    /// Sets the authors of the application.
    pub fn authors(self, authors: Option<Vec<String>>) -> (r: Self)
        ensures
            r.metadata() == (AboutMetadata { authors: authors, ..self.metadata() }),
    {
        let mut m = self.0;
        m.authors = authors;
        AboutMetadataBuilder(m)
    }

    /// Sets the application comments.
    pub fn comments(self, comments: Option<&str>) -> (r: Self)
        ensures
            opt_view(r.metadata().comments) == opt_str_view(comments),
            r.metadata() == (AboutMetadata { comments: r.metadata().comments, ..self.metadata() }),
    {
        let mut m = self.0;
        m.comments = to_owned_opt(comments);
        AboutMetadataBuilder(m)
    }

    /// Sets the copyright of the application.
    pub fn copyright(self, copyright: Option<&str>) -> (r: Self)
        ensures
            opt_view(r.metadata().copyright) == opt_str_view(copyright),
            r.metadata() == (AboutMetadata { copyright: r.metadata().copyright, ..self.metadata() }),
    {
        let mut m = self.0;
        m.copyright = to_owned_opt(copyright);
        AboutMetadataBuilder(m)
    }

    /// Sets the license of the application.
    pub fn license(self, license: Option<&str>) -> (r: Self)
        ensures
            opt_view(r.metadata().license) == opt_str_view(license),
            r.metadata() == (AboutMetadata { license: r.metadata().license, ..self.metadata() }),
    {
        let mut m = self.0;
        m.license = to_owned_opt(license);
        AboutMetadataBuilder(m)
    }

    /// Sets the application website.
    pub fn website(self, website: Option<&str>) -> (r: Self)
        ensures
            opt_view(r.metadata().website) == opt_str_view(website),
            r.metadata() == (AboutMetadata { website: r.metadata().website, ..self.metadata() }),
    {
        let mut m = self.0;
        m.website = to_owned_opt(website);
        AboutMetadataBuilder(m)
    }

    /// Sets the label of the website link.
    pub fn website_label(self, website_label: Option<&str>) -> (r: Self)
        ensures
            opt_view(r.metadata().website_label) == opt_str_view(website_label),
            r.metadata() == (AboutMetadata { website_label: r.metadata().website_label, ..self.metadata() }),
    {
        let mut m = self.0;
        m.website_label = to_owned_opt(website_label);
        AboutMetadataBuilder(m)
    }

    /// Returns the metadata.
    pub fn build(self) -> (r: AboutMetadata)
        ensures
            r == self.metadata(),
    {
        self.0
    }
}

impl Default for AboutMetadataBuilder {
    fn default() -> (r: Self)
        ensures
            r.metadata().is_empty(),
    {
        AboutMetadataBuilder::new()
    }
}

} // verus!
