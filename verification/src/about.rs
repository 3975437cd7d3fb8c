//! Information about an application, shown in its about page.

use vstd::prelude::*;
use vstd::string::*;
use crate::icon::Handle;

verus! {

/// A person who contributed, and the address where they can be reached.
pub type Contributor = (String, String);

/// Information about the application.
pub struct About {
    /// The application's name.
    pub name: Option<String>,
    /// The application's icon.
    pub icon: Option<Handle>,
    /// The application's version.
    pub version: Option<String>,
    /// Name of the application's author.
    pub author: Option<String>,
    /// Comments about the application.
    pub comments: Option<String>,
    /// The application's copyright.
    pub copyright: Option<String>,
    /// The license name.
    pub license: Option<String>,
    /// The license url.
    pub license_url: Option<String>,
    /// Artists who contributed to the application.
    pub artists: Vec<Contributor>,
    /// Designers who contributed to the application.
    pub designers: Vec<Contributor>,
    /// Developers who contributed to the application.
    pub developers: Vec<Contributor>,
    /// Documenters who contributed to the application.
    pub documenters: Vec<Contributor>,
    /// Translators who contributed to the application.
    pub translators: Vec<Contributor>,
    /// Links associated with the application.
    pub links: Vec<(String, String)>,
}

/// Each contributor's name, with a `mailto:` link to their e-mail address.
pub open spec fn contributor_entries(contributors: Seq<(&str, &str)>) -> Seq<(Seq<char>, Seq<char>)> {
    contributors.map_values(|c: (&str, &str)| (c.0@, "mailto:"@ + c.1@))
}

/// The names and `mailto:` links of contributors given as names and e-mail addresses.
pub fn add_contributors(contributors: Vec<(&str, &str)>) -> (r: Vec<Contributor>)
    ensures
        r@.map_values(|c: Contributor| (c.0@, c.1@)) == contributor_entries(contributors@),
{
    let mut r: Vec<Contributor> = Vec::new();
    let mut i: usize = 0;
    while i < contributors.len()
        invariant
            0 <= i <= contributors@.len(),
            r@.map_values(|c: Contributor| (c.0@, c.1@)) == contributor_entries(contributors@.take(i as int)),
        decreases contributors.len() - i,
    {
        let (name, email) = contributors[i];
        let mut link = String::from_str("mailto:");
        link.append(email);
        let ghost before = r@;
        let entry = (String::from_str(name), link);
        r.push(entry);
        assert(r@.map_values(|c: Contributor| (c.0@, c.1@)) =~= before.map_values(|c: Contributor| (c.0@, c.1@)).push((name@, "mailto:"@ + email@)));
        assert(contributors@.take(i + 1) =~= contributors@.take(i as int).push(contributors@[i as int]));
        assert(r@.map_values(|c: Contributor| (c.0@, c.1@)) =~= contributor_entries(contributors@.take(i + 1)));
        i += 1;
    }
    assert(contributors@.take(i as int) =~= contributors@);
    r
}


impl Default for About {
    /// Information with nothing in it.
    fn default() -> (r: Self)
        ensures
            r.name is None && r.icon is None && r.version is None && r.author is None,
            r.comments is None && r.copyright is None && r.license is None && r.license_url is None,
            r.artists@.len() == 0 && r.designers@.len() == 0 && r.developers@.len() == 0,
            r.documenters@.len() == 0 && r.translators@.len() == 0 && r.links@.len() == 0,
    {
        About {
            name: None,
            icon: None,
            version: None,
            author: None,
            comments: None,
            copyright: None,
            license: None,
            license_url: None,
            artists: Vec::new(),
            designers: Vec::new(),
            developers: Vec::new(),
            documenters: Vec::new(),
            translators: Vec::new(),
            links: Vec::new(),
        }
    }
}

/// A part of the about page.
#[derive(Debug, Clone, Copy, PartialEq, Eq, Structural)]
pub enum AboutPart {
    /// The icon, name, author and version, those that are set.
    Header,
    Links,
    Developers,
    Designers,
    Artists,
    Translators,
    Documenters,
    License,
    Comments,
    Copyright,
}

/// The part as a one-element sequence when it is shown, else nothing.
pub open spec fn part_if(shown: bool, part: AboutPart) -> Seq<AboutPart> {
    if shown { seq![part] } else { Seq::empty() }
}

fn push_if(r: &mut Vec<AboutPart>, shown: bool, part: AboutPart)
    ensures
        final(r)@ == old(r)@ + part_if(shown, part),
{
    if shown {
        r.push(part);
    }
    assert(r@ =~= old(r)@ + part_if(shown, part));
}

impl About {
    /// The parts that the about page shows, in order.
    pub open spec fn spec_parts(&self) -> Seq<AboutPart> {
        part_if(self.icon is Some || self.name is Some || self.author is Some || self.version is Some, AboutPart::Header)
            + part_if(self.links@.len() > 0, AboutPart::Links)
            + part_if(self.developers@.len() > 0, AboutPart::Developers)
            + part_if(self.designers@.len() > 0, AboutPart::Designers)
            + part_if(self.artists@.len() > 0, AboutPart::Artists)
            + part_if(self.translators@.len() > 0, AboutPart::Translators)
            + part_if(self.documenters@.len() > 0, AboutPart::Documenters)
            + part_if(self.license is Some, AboutPart::License)
            + part_if(self.comments is Some, AboutPart::Comments)
            + part_if(self.copyright is Some, AboutPart::Copyright)
    }

    /// The parts that the about page shows, in order: the header when any
    /// of its items is set, each list of links or contributors that is not
    /// empty, the license, the comments and the copyright when set.
    pub fn parts(&self) -> (r: Vec<AboutPart>)
        ensures
            r@ == self.spec_parts(),
    {
        let mut r: Vec<AboutPart> = Vec::new();
        assert(r@ =~= Seq::<AboutPart>::empty());
        push_if(&mut r, self.icon.is_some() || self.name.is_some() || self.author.is_some() || self.version.is_some(), AboutPart::Header);
        assert(r@ =~= Seq::<AboutPart>::empty() + part_if(self.icon is Some || self.name is Some || self.author is Some || self.version is Some, AboutPart::Header));
        push_if(&mut r, self.links.len() > 0, AboutPart::Links);
        push_if(&mut r, self.developers.len() > 0, AboutPart::Developers);
        push_if(&mut r, self.designers.len() > 0, AboutPart::Designers);
        push_if(&mut r, self.artists.len() > 0, AboutPart::Artists);
        push_if(&mut r, self.translators.len() > 0, AboutPart::Translators);
        push_if(&mut r, self.documenters.len() > 0, AboutPart::Documenters);
        push_if(&mut r, self.license.is_some(), AboutPart::License);
        push_if(&mut r, self.comments.is_some(), AboutPart::Comments);
        push_if(&mut r, self.copyright.is_some(), AboutPart::Copyright);
        assert(r@ =~= self.spec_parts());
        r
    }

    /// The link of the license entry: the license url, or an empty text.
    pub fn license_link(&self) -> (r: &str)
        ensures
            r@ == match self.license_url {
                Some(u) => u@,
                None => Seq::<char>::empty(),
            },
    {
        match &self.license_url {
            Some(u) => u.as_str(),
            None => {
                let e = "";
                proof {
                    reveal_strlit("");
                }
                e
            },
        }
    }

    /// Sets the application's name.
    pub fn name(self, name: String) -> (r: Self)
        ensures
            r == (About { name: Some(name), ..self }),
    {
        About { name: Some(name), ..self }
    }

    /// Sets the application's icon.
    pub fn icon(self, icon: Handle) -> (r: Self)
        ensures
            r == (About { icon: Some(icon), ..self }),
    {
        About { icon: Some(icon), ..self }
    }

    /// Sets the application's version.
    pub fn version(self, version: String) -> (r: Self)
        ensures
            r == (About { version: Some(version), ..self }),
    {
        About { version: Some(version), ..self }
    }

    /// Sets the author's name.
    pub fn author(self, author: String) -> (r: Self)
        ensures
            r == (About { author: Some(author), ..self }),
    {
        About { author: Some(author), ..self }
    }

    /// Sets the comments.
    pub fn comments(self, comments: String) -> (r: Self)
        ensures
            r == (About { comments: Some(comments), ..self }),
    {
        About { comments: Some(comments), ..self }
    }

    /// Sets the copyright.
    pub fn copyright(self, copyright: String) -> (r: Self)
        ensures
            r == (About { copyright: Some(copyright), ..self }),
    {
        About { copyright: Some(copyright), ..self }
    }

    /// Sets the license name.
    pub fn license(self, license: String) -> (r: Self)
        ensures
            r == (About { license: Some(license), ..self }),
    {
        About { license: Some(license), ..self }
    }

    /// Sets the license url.
    pub fn license_url(self, license_url: String) -> (r: Self)
        ensures
            r == (About { license_url: Some(license_url), ..self }),
    {
        About { license_url: Some(license_url), ..self }
    }

    /// Artists who contributed to the application, by name and e-mail address.
    pub fn artists(self, contributors: Vec<(&str, &str)>) -> (r: Self)
        ensures
            r.artists@.map_values(|c: Contributor| (c.0@, c.1@)) == contributor_entries(contributors@),
            r == (About { artists: r.artists, ..self }),
    {
        About { artists: add_contributors(contributors), ..self }
    }

    /// Designers who contributed to the application, by name and e-mail address.
    pub fn designers(self, contributors: Vec<(&str, &str)>) -> (r: Self)
        ensures
            r.designers@.map_values(|c: Contributor| (c.0@, c.1@)) == contributor_entries(contributors@),
            r == (About { designers: r.designers, ..self }),
    {
        About { designers: add_contributors(contributors), ..self }
    }

    /// Developers who contributed to the application, by name and e-mail address.
    pub fn developers(self, contributors: Vec<(&str, &str)>) -> (r: Self)
        ensures
            r.developers@.map_values(|c: Contributor| (c.0@, c.1@)) == contributor_entries(contributors@),
            r == (About { developers: r.developers, ..self }),
    {
        About { developers: add_contributors(contributors), ..self }
    }

    /// Documenters who contributed to the application, by name and e-mail address.
    pub fn documenters(self, contributors: Vec<(&str, &str)>) -> (r: Self)
        ensures
            r.documenters@.map_values(|c: Contributor| (c.0@, c.1@)) == contributor_entries(contributors@),
            r == (About { documenters: r.documenters, ..self }),
    {
        About { documenters: add_contributors(contributors), ..self }
    }

    /// Translators who contributed to the application, by name and e-mail address.
    pub fn translators(self, contributors: Vec<(&str, &str)>) -> (r: Self)
        ensures
            r.translators@.map_values(|c: Contributor| (c.0@, c.1@)) == contributor_entries(contributors@),
            r == (About { translators: r.translators, ..self }),
    {
        About { translators: add_contributors(contributors), ..self }
    }

    /// Links associated with the application, by name and url.
    pub fn links(self, links: Vec<(String, String)>) -> (r: Self)
        ensures
            r == (About { links, ..self }),
    {
        About { links, ..self }
    }
}

} // verus!
