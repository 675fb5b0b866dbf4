//! The immutable configuration of one external-module binding, and the
//! parameter and argument text generated from it.
//!
//! A configuration is built once per evaluator instance, when the host
//! starts: the external module's artifact is resolved and staged, and the
//! resulting record is read-only afterwards. From it, each compiled snippet
//! gets exactly one parameter declaration and one matching call-site
//! argument expression, total and deterministic over the three transfer
//! schemes and the presence or absence of a data-type descriptor.

use crate::artifact::LinkError;
use crate::artifact::resolve;
use crate::artifact::spec_artifact_file_name;
use vstd::prelude::*;

verus! {

/// The staged location of an artifact: `<destination_dir>/lib<module>.rlib`.
pub open spec fn spec_staged_path(destination_dir: Seq<char>, module_name: Seq<char>) -> Seq<
    char,
> {
    destination_dir + "/"@ + spec_artifact_file_name(module_name)
}

/// Builds the path of the staged artifact of `module_name` inside the
/// interactive compiler's destination directory.
pub fn staged_path(destination_dir: &str, module_name: &str) -> (r: String)
    ensures
        r@ == spec_staged_path(destination_dir@, module_name@),
{
    let file_name = crate::artifact::artifact_file_name(module_name);
    String::from_str(destination_dir).concat("/").concat(file_name.as_str())
}

/// How the bound value is handed to a compiled snippet.
#[derive(Clone, Copy, PartialEq, Eq, Structural, Debug)]
pub enum LinkingArgument {
    /// No value is exposed.
    NoData,
    /// The snippet receives a shared (read-only) reference.
    BorrowData,
    /// The snippet receives an exclusive (mutable) reference.
    BorrowMutData,
}

/// Marker type naming the transfer scheme that exposes nothing.
pub struct NoData;

/// Marker type naming the transfer scheme that lends the value read-only.
pub struct BorrowData;

/// Marker type naming the transfer scheme that lends the value mutably.
pub struct BorrowMutData;

/// Where an artifact was found and where its staged copy must go. The
/// caller performs the copy and reports its outcome to
/// [`LinkingConfiguration::finish_link`].
pub struct LinkPlan {
    /// The file the artifact is copied from: the explicit path when one was
    /// given, and the matching file name of the searched directory
    /// otherwise.
    pub source: String,
    /// The canonical path the artifact is copied to.
    pub destination: String,
}

/// The immutable record describing how one external module is linked into
/// the interactive compiler, and whether a host value is exposed through
/// it.
pub struct LinkingConfiguration {
    /// The name of the external module. It is the stem of the artifact's
    /// file name, and the path prefix of every generated reference into the
    /// module.
    pub crate_name: String,
    /// Where the staged artifact lives; always inside the interactive
    /// compiler's destination directory.
    pub artifact_path: String,
    /// The fully qualified name of the exposed value's type, when a value
    /// is exposed. The string is opaque here: it is neither parsed nor
    /// validated, and an invalid one is only discovered by the snippet
    /// compiler.
    pub data_type: Option<String>,
}

impl LinkingConfiguration {
    /// The descriptor as a sequence of characters, when present.
    pub open spec fn data_type_view(&self) -> Option<Seq<char>> {
        match self.data_type {
            Option::Some(d) => Option::Some(d@),
            Option::None => Option::None,
        }
    }

    /// A configuration names a non-empty module.
    pub open spec fn wf(&self) -> bool {
        self.crate_name@.len() > 0
    }

    /// Decides where the artifact of `crate_name` comes from and where it
    /// is staged. With no explicit `rlib_path`, the file names of the
    /// directory holding the host's executable are searched; the plan fails
    /// with `NotFound` exactly when no entry carries the canonical artifact
    /// file name.
    pub fn link_external_crate(
        compilation_dir: &str,
        crate_name: &str,
        rlib_path: Option<String>,
        search_entries: &Vec<String>,
    ) -> (r: Result<LinkPlan, LinkError>)
        ensures
            rlib_path matches Some(p) ==> (r matches Ok(plan) && plan.source == p
                && plan.destination@ == spec_staged_path(compilation_dir@, crate_name@)),
            rlib_path is None ==> ((r is Ok) <==> exists|i: int|
                0 <= i < search_entries@.len() && search_entries@[i]@ == spec_artifact_file_name(
                    crate_name@,
                )),
            rlib_path is None && r is Ok ==> (r matches Ok(plan) && plan.source@
                == spec_artifact_file_name(crate_name@) && plan.destination@ == spec_staged_path(
                compilation_dir@,
                crate_name@,
            )),
            r is Err ==> (r matches Err(e) && e matches LinkError::NotFound(f) && f@
                == spec_artifact_file_name(crate_name@)),
    {
        let source = match resolve(crate_name, rlib_path, search_entries) {
            Ok(s) => s,
            Err(e) => {
                return Err(e);
            },
        };
        let destination = staged_path(compilation_dir, crate_name);
        Ok(LinkPlan { source, destination })
    }

    /// Turns a staged plan into the configuration, once the caller has
    /// copied the artifact. A failed copy becomes `StagingFailed`; nothing
    /// else can fail here.
    pub fn finish_link(crate_name: &str, plan: LinkPlan, copy_succeeded: bool) -> (r: Result<
        LinkingConfiguration,
        LinkError,
    >)
        requires
            crate_name@.len() > 0,
        ensures
            copy_succeeded ==> (r matches Ok(c) && c.wf() && c.crate_name@ == crate_name@
                && c.artifact_path == plan.destination && c.data_type is None),
            !copy_succeeded ==> (r matches Err(e) && e is StagingFailed),
    {
        if copy_succeeded {
            Ok(
                LinkingConfiguration {
                    crate_name: String::from_str(crate_name),
                    artifact_path: plan.destination,
                    data_type: None,
                },
            )
        } else {
            Err(LinkError::StagingFailed)
        }
    }

    /// Attaches the data-type descriptor of the exposed value. The
    /// descriptor is stored verbatim; whether it names a real, reachable
    /// type is discovered at snippet-compile time by the external compiler.
    pub fn with_data(self, descriptor: &str) -> (r: LinkingConfiguration)
        ensures
            r.crate_name == self.crate_name,
            r.artifact_path == self.artifact_path,
            r.data_type matches Some(d) && d@ == descriptor@,
            self.wf() ==> r.wf(),
    {
        LinkingConfiguration {
            crate_name: self.crate_name,
            artifact_path: self.artifact_path,
            data_type: Some(String::from_str(descriptor)),
        }
    }
}

/// The parameter declaration a compiled snippet's entry point receives:
/// empty unless a descriptor is present and a value is exposed, and
/// otherwise `app_data` under the configured borrow, typed by the module's
/// path prefix and the descriptor.
pub open spec fn spec_fn_args(
    crate_name: Seq<char>,
    data_type: Option<Seq<char>>,
    arg_type: LinkingArgument,
) -> Seq<char> {
    match data_type {
        Option::Some(d) => match arg_type {
            LinkingArgument::NoData => Seq::<char>::empty(),
            LinkingArgument::BorrowData => "app_data: &"@ + crate_name + "::"@ + d,
            LinkingArgument::BorrowMutData => "app_data: &mut "@ + crate_name + "::"@ + d,
        },
        Option::None => Seq::<char>::empty(),
    }
}

/// The argument expression the generated wrapper passes at the call site:
/// the bound value's name exactly when the parameter declaration is
/// non-empty, and empty otherwise.
pub open spec fn spec_fn_call_args(data_type: Option<Seq<char>>, arg_type: LinkingArgument) -> Seq<
    char,
> {
    match data_type {
        Option::Some(_) => match arg_type {
            LinkingArgument::NoData => Seq::<char>::empty(),
            LinkingArgument::BorrowData => "app_data"@,
            LinkingArgument::BorrowMutData => "app_data"@,
        },
        Option::None => Seq::<char>::empty(),
    }
}

impl LinkingConfiguration {
    /// Renders the one parameter declaration spliced into the entry-point
    /// signature of each compiled snippet.
    pub fn construct_fn_args(&self, arg_type: &LinkingArgument) -> (r: String)
        ensures
            r@ == spec_fn_args(self.crate_name@, self.data_type_view(), *arg_type),
    {
        match &self.data_type {
            Some(d) => match arg_type {
                LinkingArgument::NoData => String::new(),
                LinkingArgument::BorrowData => String::from_str("app_data: &").concat(
                    self.crate_name.as_str(),
                ).concat("::").concat(d.as_str()),
                LinkingArgument::BorrowMutData => String::from_str("app_data: &mut ").concat(
                    self.crate_name.as_str(),
                ).concat("::").concat(d.as_str()),
            },
            None => String::new(),
        }
    }

    /// Renders the one argument expression the generated wrapper passes to
    /// the snippet's entry point; it pairs with [`Self::construct_fn_args`]
    /// for every transfer scheme and descriptor.
    pub fn construct_fn_call_args(&self, arg_type: &LinkingArgument) -> (r: String)
        ensures
            r@ == spec_fn_call_args(self.data_type_view(), *arg_type),
    {
        match &self.data_type {
            Some(_) => match arg_type {
                LinkingArgument::NoData => String::new(),
                LinkingArgument::BorrowData => String::from_str("app_data"),
                LinkingArgument::BorrowMutData => String::from_str("app_data"),
            },
            None => String::new(),
        }
    }
}

/// The snippet parameter and its call-site argument are either both empty
/// or both present: a rendered parameter is never left without its
/// argument, nor an argument without its parameter.
pub proof fn lemma_parameter_argument_paired(
    crate_name: Seq<char>,
    data_type: Option<Seq<char>>,
    arg_type: LinkingArgument,
)
    ensures
        spec_fn_args(crate_name, data_type, arg_type).len() == 0 <==> spec_fn_call_args(
            data_type,
            arg_type,
        ).len() == 0,
{
    reveal_strlit("app_data");
    reveal_strlit("app_data: &");
    reveal_strlit("app_data: &mut ");
}

} // verus!
