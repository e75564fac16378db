//! The generated builder protocol, expanded for a `Config` structure.
//!
//! `Config` has one required field, `name`, and one optional field,
//! `retries`, declared as the optionality wrapper over `u32`.  Its builder
//! therefore stores `retries` behind a single level of optionality and its
//! `retries` setter takes a bare `u32`: the collapse of the double wrap,
//! visible in the types themselves.

use vstd::prelude::*;

use crate::assemble::AssemblyError;

verus! {

/// The target structure: a name with an optional retry count.
pub struct Config {
    pub name: String,
    pub retries: Option<u32>,
}

/// The builder for [`Config`]: every field optionally stored, absent until
/// its setter runs.
pub struct ConfigBuilder {
    pub name: Option<String>,
    pub retries: Option<u32>,
}

/// The builder the factory returns: every field absent.
pub open spec fn empty_config_builder() -> ConfigBuilder {
    ConfigBuilder { name: None, retries: None }
}

/// The builder after its `name` setter ran with `v`.
pub open spec fn with_name(b: ConfigBuilder, v: String) -> ConfigBuilder {
    ConfigBuilder { name: Some(v), retries: b.retries }
}

/// The builder after its `retries` setter ran with `v`: the bare inner
/// value is recorded as present.
pub open spec fn with_retries(b: ConfigBuilder, v: u32) -> ConfigBuilder {
    ConfigBuilder { name: b.name, retries: Some(v) }
}

/// Every required field of the builder is present, so finalization
/// succeeds.
pub open spec fn config_complete(b: ConfigBuilder) -> bool {
    b.name is Some
}

/// The configuration a complete builder assembles: the required field
/// unwrapped, the optional field passed through unchanged.
pub open spec fn assembled_config(b: ConfigBuilder) -> Config
    recommends
        config_complete(b),
{
    Config { name: b.name->0, retries: b.retries }
}

impl ConfigBuilder {
    /// Records `name` as present, overwriting any earlier value.
    pub fn name(self, name: String) -> (r: Self)
        ensures
            r == with_name(self, name),
    {
        ConfigBuilder { name: Some(name), retries: self.retries }
    }

    /// Records `retries` as present, overwriting any earlier value.  The
    /// parameter is the bare inner type of the optional field.
    pub fn retries(self, retries: u32) -> (r: Self)
        ensures
            r == with_retries(self, retries),
    {
        ConfigBuilder { name: self.name, retries: Some(retries) }
    }

    /// Finalization: assembles the [`Config`] when `name` is present, and
    /// otherwise fails with [`AssemblyError::MissingField`] naming `name`.
    /// The optional `retries` passes through unchanged; its absence is a
    /// legitimate final value.
    pub fn build(self) -> (r: Result<Config, AssemblyError>)
        ensures
            r is Ok <==> config_complete(self),
            r matches Ok(c) ==> c == assembled_config(self),
            r matches Err(e) ==> (e matches AssemblyError::MissingField(n) && n@ == "name"@),
    {
        let ConfigBuilder { name, retries } = self;
        let name = match name {
            Some(v) => v,
            None => {
                return Err(AssemblyError::MissingField(String::from_str("name")));
            },
        };
        Ok(Config { name, retries })
    }
}

impl Config {
    /// The factory: a fresh builder with every field absent.
    pub fn builder() -> (r: ConfigBuilder)
        ensures
            r == empty_config_builder(),
    {
        ConfigBuilder { name: None, retries: None }
    }
}

/// Round-trip completeness: from any starting builder, setting the one
/// required field once makes finalization succeed with exactly that value,
/// while the optional field passes through whatever the starting builder
/// held.
pub proof fn lemma_config_round_trip(b0: ConfigBuilder, n: String)
    ensures
        config_complete(with_name(b0, n)),
        assembled_config(with_name(b0, n)).name == n,
        assembled_config(with_name(b0, n)).retries == b0.retries,
{
}

/// Missing-required-field failure: while `name` was never set, the builder
/// is not complete — the `retries` setter alone never completes it.
pub proof fn lemma_config_missing_field(v: u32)
    ensures
        !config_complete(empty_config_builder()),
        !config_complete(with_retries(empty_config_builder(), v)),
{
}

/// Optional-field pass-through: `retries` never set stays absent in the
/// finalized result; set to an inner value, the result holds exactly that
/// value as present.
pub proof fn lemma_config_optional_pass_through(n: String, v: u32)
    ensures
        assembled_config(with_name(empty_config_builder(), n)).retries is None,
        assembled_config(with_retries(with_name(empty_config_builder(), n), v)).retries
            == Some(v),
{
}

/// Overwrite semantics: running a setter twice leaves exactly the second
/// value — the builder after two calls equals the builder after the second
/// call alone, and a finalized result sees only the second value.
pub proof fn lemma_config_overwrite(b: ConfigBuilder, n: String, v1: u32, v2: u32)
    ensures
        with_retries(with_retries(b, v1), v2) == with_retries(b, v2),
        assembled_config(with_retries(with_retries(with_name(b, n), v1), v2)).retries
            == Some(v2),
        with_name(with_name(b, n), n) == with_name(b, n),
{
}

} // verus!
