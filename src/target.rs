//! Target selection: which executable target of the workspace holds the
//! scenes, given the package, kind and name that the user asked for.
//!
//! The workspace metadata is read by the caller; here packages and targets
//! are plain values.

use vstd::prelude::*;

use crate::text::{opt_string_text, opt_text, same_text, texts, to_owned_opt};

verus! {

/// The kind of an executable target.
#[derive(Clone, Copy, Debug, PartialEq, Eq, Structural, PartialOrd, Ord)]
pub enum Kind {
    Bin,
    Example,
}

impl Kind {
    /// How the kind is written.
    pub open spec fn label(self) -> Seq<char> {
        match self {
            Kind::Bin => "bin"@,
            Kind::Example => "example"@,
        }
    }

    pub fn as_str(&self) -> (r: &'static str)
        ensures
            r@ == self.label(),
    {
        match self {
            Kind::Bin => "bin",
            Kind::Example => "example",
        }
    }
}

/// The target options of the command line: at most one of the two is given.
pub struct TargetArgs {
    pub bin: Option<String>,
    pub example: Option<String>,
}

impl TargetArgs {
    /// The kind asked for, and the name if one was given. With neither
    /// option, any bin target.
    pub fn kind_and_name(&self) -> (r: (Kind, Option<&str>))
        ensures
            self.bin matches Some(n) ==> r.0 == Kind::Bin && opt_text(r.1) == Some(n@),
            self.bin is None ==> (self.example matches Some(n) ==> r.0 == Kind::Example && opt_text(
                r.1,
            ) == Some(n@)),
            self.bin is None && self.example is None ==> r.0 == Kind::Bin && r.1 is None,
    {
        if let Some(name) = &self.bin {
            (Kind::Bin, Some(name.as_str()))
        } else if let Some(name) = &self.example {
            (Kind::Example, Some(name.as_str()))
        } else {
            (Kind::Bin, None)
        }
    }
}

/// A target of a package, as the workspace metadata describes it.
pub struct TargetInfo {
    pub name: String,
    pub is_bin: bool,
    pub is_example: bool,
}

impl TargetInfo {
    pub open spec fn has_kind(self, kind: Kind) -> bool {
        match kind {
            Kind::Bin => self.is_bin,
            Kind::Example => self.is_example,
        }
    }

    /// Whether the target is of this kind.
    pub fn is_kind(&self, kind: Kind) -> (r: bool)
        ensures
            r == self.has_kind(kind),
    {
        match kind {
            Kind::Bin => self.is_bin,
            Kind::Example => self.is_example,
        }
    }
}

/// A package of the workspace with its targets.
pub struct PackageInfo {
    pub name: String,
    pub id: String,
    pub targets: Vec<TargetInfo>,
}

/// A build artifact: the package it belongs to and the target it was built
/// for.
pub struct ArtifactInfo {
    pub package_id: String,
    pub target: TargetInfo,
}

/// A package, by name and identifier.
pub struct Package {
    pub name: String,
    pub id: String,
}

/// The selected target.
pub struct Spec {
    pub package: Package,
    pub kind: Kind,
    pub name: String,
}

/// A selected target, mathematically.
pub struct SpecView {
    pub package_name: Seq<char>,
    pub package_id: Seq<char>,
    pub kind: Kind,
    pub name: Seq<char>,
}

impl View for Spec {
    type V = SpecView;

    open spec fn view(&self) -> SpecView {
        SpecView {
            package_name: self.package.name@,
            package_id: self.package.id@,
            kind: self.kind,
            name: self.name@,
        }
    }
}

/// How a selected target is described to the user.
pub open spec fn describe(s: SpecView) -> Seq<char> {
    s.kind.label() + " `"@ + s.name + "` in package `"@ + s.package_name + "`"@
}

impl Spec {
    /// Whether a build artifact is the one of this target.
    pub fn matches_artifact(&self, artifact: &ArtifactInfo) -> (r: bool)
        ensures
            r == (self.package.id@ == artifact.package_id@ && artifact.target.has_kind(self.kind)
                && self.name@ == artifact.target.name@),
    {
        self.package.id.eq(&artifact.package_id) && artifact.target.is_kind(self.kind)
            && self.name.eq(&artifact.target.name)
    }

    /// The target, as a line for the user.
    pub fn describe(&self) -> (r: String)
        ensures
            r@ == describe(self@),
    {
        String::from_str(self.kind.as_str()).concat(" `").concat(self.name.as_str()).concat(
            "` in package `",
        ).concat(self.package.name.as_str()).concat("`")
    }
}

/// The arguments of the build of a selected target: a build that reports in
/// JSON, in release mode if asked, of the target's package and name.
pub open spec fn build_args_spec(s: SpecView, release: bool) -> Seq<Seq<char>> {
    seq!["build"@, "--message-format"@, "json"@] + (if release {
        seq!["--release"@]
    } else {
        Seq::empty()
    }) + seq![
        "--package"@,
        s.package_name,
        match s.kind {
            Kind::Bin => "--bin"@,
            Kind::Example => "--example"@,
        },
        s.name,
    ]
}

/// The arguments of `cargo` that build the selected target.
pub fn build_args(spec: &Spec, release: bool) -> (r: Vec<String>)
    ensures
        texts(r@) == build_args_spec(spec@, release),
{
    let mut args: Vec<String> = Vec::new();
    args.push(String::from_str("build"));
    args.push(String::from_str("--message-format"));
    args.push(String::from_str("json"));
    if release {
        args.push(String::from_str("--release"));
    }
    args.push(String::from_str("--package"));
    args.push(spec.package.name.clone());
    match spec.kind {
        Kind::Bin => args.push(String::from_str("--bin")),
        Kind::Example => args.push(String::from_str("--example")),
    }
    args.push(spec.name.clone());
    assert(texts(args@) =~= build_args_spec(spec@, release));
    args
}

/// Whether a target answers the request.
pub open spec fn target_wanted(t: TargetInfo, kind: Kind, name: Option<Seq<char>>) -> bool {
    (name matches Some(n) ==> t.name@ == n) && t.has_kind(kind)
}

/// The candidates among the first `upto` targets of a package, in order.
pub open spec fn package_candidates(
    p: PackageInfo,
    kind: Kind,
    name: Option<Seq<char>>,
    upto: int,
) -> Seq<SpecView>
    decreases upto,
{
    if upto <= 0 {
        Seq::empty()
    } else {
        let t = p.targets[upto - 1];
        package_candidates(p, kind, name, upto - 1) + if target_wanted(t, kind, name) {
            seq![SpecView { package_name: p.name@, package_id: p.id@, kind, name: t.name@ }]
        } else {
            Seq::empty()
        }
    }
}

/// Whether a package answers the request.
pub open spec fn package_wanted(p: PackageInfo, package_name: Option<Seq<char>>) -> bool {
    package_name matches Some(n) ==> p.name@ == n
}

/// The candidates among the first `upto` packages, in order.
pub open spec fn candidates(
    packages: Seq<PackageInfo>,
    package_name: Option<Seq<char>>,
    kind: Kind,
    name: Option<Seq<char>>,
    upto: int,
) -> Seq<SpecView>
    decreases upto,
{
    if upto <= 0 {
        Seq::empty()
    } else {
        let p = packages[upto - 1];
        candidates(packages, package_name, kind, name, upto - 1) + if package_wanted(
            p,
            package_name,
        ) {
            package_candidates(p, kind, name, p.targets.len() as int)
        } else {
            Seq::empty()
        }
    }
}

/// The views of a list of selected targets.
pub open spec fn views(specs: Seq<Spec>) -> Seq<SpecView> {
    specs.map_values(|s: Spec| s@)
}

/// Why no single target was selected.
pub enum SelectError {
    NoTarget { kind: Kind, name: Option<String> },
    MultipleTargets { kind: Kind, name: Option<String>, candidates: Vec<Spec> },
}

/// " named `n`" where a name was asked for.
pub open spec fn named(name: Option<Seq<char>>) -> Seq<char> {
    match name {
        Some(n) => " named `"@ + n + "`"@,
        None => Seq::empty(),
    }
}

/// The message when no target answers.
pub open spec fn no_target_message(kind: Kind, name: Option<Seq<char>>) -> Seq<char> {
    "no "@ + kind.label() + " target"@ + named(name) + " found"@
}

/// One line per candidate, each on a new line.
pub open spec fn listing(c: Seq<SpecView>) -> Seq<char>
    decreases c.len(),
{
    if c.len() == 0 {
        Seq::empty()
    } else {
        listing(c.drop_last()) + "\n    "@ + describe(c.last())
    }
}

/// The message when several targets answer.
pub open spec fn multiple_targets_message(
    kind: Kind,
    name: Option<Seq<char>>,
    c: Seq<SpecView>,
) -> Seq<char> {
    "multiple "@ + kind.label() + " targets"@ + named(name) + " found:"@ + listing(c)
}

fn append_named(m: &mut String, name: Option<&str>)
    ensures
        final(m)@ == old(m)@ + named(opt_text(name)),
{
    if let Some(name) = name {
        m.append(" named `");
        m.append(name);
        m.append("`");
    } else {
        assert(old(m)@ + named(opt_text(name)) =~= old(m)@);
    }
}

/// The message when no target answers the request.
pub fn error_no_target(kind: Kind, name: Option<&str>) -> (r: String)
    ensures
        r@ == no_target_message(kind, opt_text(name)),
{
    let mut m = String::from_str("no ");
    m.append(kind.as_str());
    m.append(" target");
    append_named(&mut m, name);
    m.append(" found");
    m
}

/// The message when several targets answer the request, with the list of
/// them.
pub fn error_multiple_targets(kind: Kind, name: Option<&str>, candidates: &Vec<Spec>) -> (r: String)
    ensures
        r@ == multiple_targets_message(kind, opt_text(name), views(candidates@)),
{
    let mut m = String::from_str("multiple ");
    m.append(kind.as_str());
    m.append(" targets");
    append_named(&mut m, name);
    m.append(" found:");
    let ghost head = m@;
    let mut i: usize = 0;
    while i < candidates.len()
        invariant
            i <= candidates.len(),
            m@ == head + listing(views(candidates@).take(i as int)),
        decreases candidates.len() - i,
    {
        let line = candidates[i].describe();
        m.append("\n    ");
        m.append(line.as_str());
        proof {
            let c = views(candidates@);
            assert(c.take(i + 1).drop_last() =~= c.take(i as int));
        }
        i = i + 1;
    }
    proof {
        assert(views(candidates@).take(candidates.len() as int) =~= views(candidates@));
    }
    m
}

impl SelectError {
    /// The error as a message for the user.
    pub fn message(&self) -> (r: String)
        ensures
            self matches SelectError::NoTarget { kind, name } ==> r@ == no_target_message(
                *kind,
                opt_string_text(*name),
            ),
            self matches SelectError::MultipleTargets { kind, name, candidates } ==> r@
                == multiple_targets_message(*kind, opt_string_text(*name), views(candidates@)),
    {
        match self {
            SelectError::NoTarget { kind, name } => {
                let n = match name {
                    Some(n) => Some(n.as_str()),
                    None => None,
                };
                error_no_target(*kind, n)
            },
            SelectError::MultipleTargets { kind, name, candidates } => {
                let n = match name {
                    Some(n) => Some(n.as_str()),
                    None => None,
                };
                error_multiple_targets(*kind, n, candidates)
            },
        }
    }
}

/// Picks the one target of the workspace that answers the request: of the
/// package named `package_name` if given, of kind `kind`, named `name` if
/// given.
pub fn select(
    packages: &Vec<PackageInfo>,
    package_name: Option<&str>,
    kind: Kind,
    name: Option<&str>,
) -> (r: Result<Spec, SelectError>)
    ensures
        ({
            let c = candidates(
                packages@,
                opt_text(package_name),
                kind,
                opt_text(name),
                packages.len() as int,
            );
            &&& (c.len() == 1) == (r is Ok)
            &&& r matches Ok(s) ==> s@ == c[0]
            &&& (c.len() == 0) == (r matches Err(SelectError::NoTarget { .. }))
            &&& r matches Err(SelectError::NoTarget { kind: k, name: n }) ==> k == kind
                && opt_string_text(n) == opt_text(name)
            &&& r matches Err(SelectError::MultipleTargets { kind: k, name: n, candidates: cs })
                ==> k == kind && opt_string_text(n) == opt_text(name) && views(cs@) == c
        }),
{
    let ghost pn = opt_text(package_name);
    let ghost tn = opt_text(name);
    let mut found: Vec<Spec> = Vec::new();
    let mut i: usize = 0;
    while i < packages.len()
        invariant
            i <= packages.len(),
            pn == opt_text(package_name),
            tn == opt_text(name),
            views(found@) == candidates(packages@, pn, kind, tn, i as int),
        decreases packages.len() - i,
    {
        let package = &packages[i];
        let wanted = match package_name {
            Some(p) => same_text(package.name.as_str(), p),
            None => true,
        };
        let ghost before = views(found@);
        if wanted {
            let mut j: usize = 0;
            while j < package.targets.len()
                invariant
                    i < packages.len(),
                    tn == opt_text(name),
                    *package == packages@[i as int],
                    package_wanted(*package, pn),
                    j <= package.targets.len(),
                    views(found@) == before + package_candidates(*package, kind, tn, j as int),
                decreases package.targets.len() - j,
            {
                let target = &package.targets[j];
                let name_ok = match name {
                    Some(n) => same_text(target.name.as_str(), n),
                    None => true,
                };
                let ghost prev = found@;
                if name_ok && target.is_kind(kind) {
                    found.push(
                        Spec {
                            package: Package { name: package.name.clone(), id: package.id.clone() },
                            kind,
                            name: target.name.clone(),
                        },
                    );
                    proof {
                        assert(views(found@) =~= views(prev) + seq![found@.last()@]);
                    }
                }
                proof {
                    assert(views(found@) =~= before + package_candidates(
                        *package,
                        kind,
                        tn,
                        j + 1,
                    ));
                }
                j = j + 1;
            }
        }
        proof {
            assert(views(found@) =~= candidates(packages@, pn, kind, tn, i + 1));
        }
        i = i + 1;
    }
    if found.len() == 1 {
        let s = found.remove(0);
        Ok(s)
    } else if found.len() == 0 {
        Err(SelectError::NoTarget { kind, name: to_owned_opt(name) })
    } else {
        Err(SelectError::MultipleTargets { kind, name: to_owned_opt(name), candidates: found })
    }
}

} // verus!
