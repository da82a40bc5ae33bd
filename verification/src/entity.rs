//! The records a catalog returns, and the strings shown for each.

use vstd::prelude::*;
use vstd::string::*;

verus! {

/// The path segment between the display host and a flake's name: `/flake/`.
pub open spec fn flake_segment() -> Seq<char> {
    seq!['/', 'f', 'l', 'a', 'k', 'e', '/']
}

/// The path segment between the display host and an organization's name: `/org/`.
pub open spec fn org_segment() -> Seq<char> {
    seq!['/', 'o', 'r', 'g', '/']
}

/// `{organization}/{project}`
pub open spec fn flake_name(organization: Seq<char>, project: Seq<char>) -> Seq<char> {
    organization + seq!['/'] + project
}

/// `{host}/flake/{organization}/{project}`
pub open spec fn flake_url(host: Seq<char>, organization: Seq<char>, project: Seq<char>) -> Seq<
    char,
> {
    host + flake_segment() + flake_name(organization, project)
}

/// `{host}/org/{name}`
pub open spec fn org_url(host: Seq<char>, name: Seq<char>) -> Seq<char> {
    host + org_segment() + name
}

/// A versioned project of the catalog, known by its organization and project name.
///
/// Both fields are taken as the catalog delivers them; nothing is validated,
/// escaped or encoded.
#[derive(Debug)]
pub struct Flake {
    pub organization: String,
    pub project: String,
}

/// What a [`Flake`] is to the contracts: its two names as character sequences.
pub ghost struct FlakeView {
    pub organization: Seq<char>,
    pub project: Seq<char>,
}

impl View for Flake {
    type V = FlakeView;

    open spec fn view(&self) -> FlakeView {
        FlakeView { organization: self.organization@, project: self.project@ }
    }
}

impl FlakeView {
    /// The flake's label, [`flake_name`] of its two names.
    pub open spec fn name(self) -> Seq<char> {
        flake_name(self.organization, self.project)
    }

    /// The flake's page under `host`, [`flake_url`] of its two names.
    pub open spec fn url(self, host: Seq<char>) -> Seq<char> {
        flake_url(host, self.organization, self.project)
    }
}

impl Flake {
    /// The flake `project` of `organization`.
    pub fn new(organization: String, project: String) -> (flake: Flake)
        ensures
            flake@ == (FlakeView { organization: organization@, project: project@ }),
    {
        Flake { organization, project }
    }

    /// The label of the flake: organization and project, joined by a slash.
    pub fn name(&self) -> (name: String)
        ensures
            name@ == self@.name(),
    {
        let mut name = self.organization.clone();
        name.append("/");
        name.append(self.project.as_str());
        proof {
            reveal_strlit("/");
            assert("/"@ =~= seq!['/']);
        }
        name
    }

    /// The page of the flake under `host`. The names go into the link as they are.
    pub fn url(&self, host: &str) -> (url: String)
        ensures
            url@ == self@.url(host@),
    {
        let mut url = String::from_str(host);
        url.append("/flake/");
        url.append(self.name().as_str());
        proof {
            reveal_strlit("/flake/");
            assert("/flake/"@ =~= flake_segment());
        }
        url
    }
}

/// An organization of the catalog, which owns flakes.
#[derive(Debug)]
pub struct Org {
    pub name: String,
}

impl View for Org {
    type V = Seq<char>;

    open spec fn view(&self) -> Seq<char> {
        self.name@
    }
}

impl Org {
    /// The organization called `name`.
    pub fn new(name: String) -> (org: Org)
        ensures
            org@ == name@,
    {
        Org { name }
    }

    /// The page of the organization under `host`.
    pub fn url(&self, host: &str) -> (url: String)
        ensures
            url@ == org_url(host@, self@),
    {
        let mut url = String::from_str(host);
        url.append("/org/");
        url.append(self.name.as_str());
        proof {
            reveal_strlit("/org/");
            assert("/org/"@ =~= org_segment());
        }
        url
    }
}

/// The views of `flakes`, in order.
pub open spec fn flake_views(flakes: Seq<Flake>) -> Seq<FlakeView> {
    Seq::new(flakes.len(), |i: int| flakes[i]@)
}

/// The views of `names`, in order.
pub open spec fn name_views(names: Seq<String>) -> Seq<Seq<char>> {
    Seq::new(names.len(), |i: int| names[i]@)
}

} // verus!
