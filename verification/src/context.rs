//! Custom assertions and the metadata that a pipeline threads through its
//! transform calls.

use vstd::prelude::*;
use vstd::string::{StrSliceExecFns, StringExecFns};
use vstd::utf8::encode_utf8;

verus! {

/// A labelled blob that is attached to a claim when it is signed.
#[derive(Debug)]
pub struct CustomAssertion {
    pub label: String,
    pub data: Vec<u8>,
    pub mime_type: String,
}

/// What a custom assertion holds, as mathematical values.
pub ghost struct AssertionView {
    pub label: Seq<char>,
    pub data: Seq<u8>,
    pub mime_type: Seq<char>,
}

impl View for CustomAssertion {
    type V = AssertionView;

    open spec fn view(&self) -> AssertionView {
        AssertionView { label: self.label@, data: self.data@, mime_type: self.mime_type@ }
    }
}

impl Clone for CustomAssertion {
    fn clone(&self) -> (copy: Self)
        ensures
            copy@ == self@,
    {
        CustomAssertion {
            label: self.label.clone(),
            data: self.data.clone(),
            mime_type: self.mime_type.clone(),
        }
    }
}

impl DeepView for CustomAssertion {
    type V = AssertionView;

    open spec fn deep_view(&self) -> AssertionView {
        self@
    }
}

impl CustomAssertion {
    /// An assertion whose data is the UTF-8 encoding of a JSON text.
    pub fn json(label: &str, json: &str) -> (assertion: Self)
        ensures
            assertion@ == (AssertionView {
                label: label@,
                data: encode_utf8(json@),
                mime_type: "application/json"@,
            }),
    {
        CustomAssertion {
            label: String::from_str(label),
            data: json.as_bytes_vec(),
            mime_type: String::from_str("application/json"),
        }
    }
}

/// The metadata of one pipeline run: what every transform call in it reads
/// and records.
#[derive(Debug)]
pub struct TransformContext {
    /// Label of the producing tool, folded into every claim hash.
    pub generator: String,
    /// Whether trusted timestamps are required.
    pub require_timestamp: bool,
    /// Custom assertions of the run.
    pub assertions: Vec<CustomAssertion>,
    /// Name of the transform that ran last, if one has run.
    pub transform_name: Option<String>,
    /// Parameter commits of the transforms that ran: a name and a 32-byte
    /// hash each, never a parameter's value.
    pub param_commits: Vec<(String, [u8; 32])>,
}

impl TransformContext {
    /// The context of a fresh run: no timestamp requirement, no assertion,
    /// no transform recorded.
    pub open spec fn fresh(&self, generator: Seq<char>) -> bool {
        &&& self.generator@ == generator
        &&& !self.require_timestamp
        &&& self.assertions@.len() == 0
        &&& self.transform_name is None
        &&& self.param_commits@.len() == 0
    }

    /// A fresh context for the given generator label.
    pub fn new(generator: &str) -> (ctx: Self)
        ensures
            ctx.fresh(generator@),
    {
        TransformContext {
            generator: String::from_str(generator),
            require_timestamp: false,
            assertions: Vec::new(),
            transform_name: None,
            param_commits: Vec::new(),
        }
    }

    /// Sets whether trusted timestamps are required.
    pub fn with_timestamp(self, require: bool) -> (ctx: Self)
        ensures
            ctx.require_timestamp == require,
            ctx.generator == self.generator,
            ctx.assertions == self.assertions,
            ctx.transform_name == self.transform_name,
            ctx.param_commits == self.param_commits,
    {
        let mut ctx = self;
        ctx.require_timestamp = require;
        ctx
    }

    /// Adds a custom assertion after those already present.
    pub fn add_assertion(self, assertion: CustomAssertion) -> (ctx: Self)
        ensures
            ctx.assertions@ == self.assertions@.push(assertion),
            ctx.generator == self.generator,
            ctx.require_timestamp == self.require_timestamp,
            ctx.transform_name == self.transform_name,
            ctx.param_commits == self.param_commits,
    {
        let mut ctx = self;
        ctx.assertions.push(assertion);
        ctx
    }

    /// Records the name of the transform that is running.
    pub fn set_transform_name(&mut self, name: &str)
        ensures
            final(self).transform_name matches Some(recorded) && recorded@ == name@,
            final(self).generator == old(self).generator,
            final(self).require_timestamp == old(self).require_timestamp,
            final(self).assertions == old(self).assertions,
            final(self).param_commits == old(self).param_commits,
    {
        self.transform_name = Some(String::from_str(name));
    }

    /// Records the commit of one parameter after those already present.
    pub fn add_param_commit(&mut self, name: String, commit: [u8; 32])
        ensures
            final(self).param_commits@ == old(self).param_commits@.push((name, commit)),
            final(self).generator == old(self).generator,
            final(self).require_timestamp == old(self).require_timestamp,
            final(self).assertions == old(self).assertions,
            final(self).transform_name == old(self).transform_name,
    {
        self.param_commits.push((name, commit));
    }

    /// Forgets the transform name and the parameter commits; the generator
    /// label and the settings of the run stay.
    pub fn clear_transform_metadata(&mut self)
        ensures
            final(self).transform_name is None,
            final(self).param_commits@.len() == 0,
            final(self).generator == old(self).generator,
            final(self).require_timestamp == old(self).require_timestamp,
            final(self).assertions == old(self).assertions,
    {
        self.transform_name = None;
        self.param_commits.clear();
    }
}

/// Whether the settings of a run are the same in both contexts: the
/// generator label, the timestamp requirement and the custom assertions.
pub open spec fn same_run(before: &TransformContext, after: &TransformContext) -> bool {
    &&& after.generator == before.generator
    &&& after.require_timestamp == before.require_timestamp
    &&& after.assertions == before.assertions
}

/// Whether `after` is `before` with one more transform recorded: its name
/// as the last transform, and its commits after those already there.
pub open spec fn records_transform(
    before: &TransformContext,
    after: &TransformContext,
    name: Seq<char>,
    commits: Seq<(String, [u8; 32])>,
) -> bool {
    &&& same_run(before, after)
    &&& after.transform_name matches Some(recorded) && recorded@ == name
    &&& after.param_commits@ == before.param_commits@ + commits
}

} // verus!
