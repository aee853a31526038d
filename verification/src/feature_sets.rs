//! The feature table a module hands to zsh: its builtins, conditions, math
//! functions and parameters, each with its count.
use vstd::prelude::*;
use crate::types::c_int;
use crate::tables::{builtin, conddef};
use crate::arithmetic::mathfunc;
use crate::params::paramdef;

verus! {

/// A module's feature table.  Each list is paired with the count zsh reads.
#[derive(Debug)]
pub struct features {
    pub bn_list: Vec<builtin>,
    pub bn_size: c_int,
    pub cd_list: Vec<conddef>,
    pub cd_size: c_int,
    pub mf_list: Vec<mathfunc>,
    pub mf_size: c_int,
    pub pd_list: Vec<paramdef>,
    pub pd_size: c_int,
    pub n_abstract: c_int,
}

impl features {
    /// The table with no features at all.
    pub open spec fn is_blank(&self) -> bool {
        &&& self.bn_list@.len() == 0 && self.bn_size == 0
        &&& self.cd_list@.len() == 0 && self.cd_size == 0
        &&& self.mf_list@.len() == 0 && self.mf_size == 0
        &&& self.pd_list@.len() == 0 && self.pd_size == 0
        &&& self.n_abstract == 0
    }

    /// The empty table.
    pub fn CONST_DEFAULT() -> (r: Self)
        ensures
            r.is_blank(),
    {
        features {
            bn_list: Vec::new(),
            bn_size: 0,
            cd_list: Vec::new(),
            cd_size: 0,
            mf_list: Vec::new(),
            mf_size: 0,
            pd_list: Vec::new(),
            pd_size: 0,
            n_abstract: 0,
        }
    }

    /// The empty table.
    #[inline(always)]
    pub fn new() -> (r: Self)
        ensures
            r.is_blank(),
    {
        Self::CONST_DEFAULT()
    }

    /// The empty table, to be filled with the `with_*` methods.
    #[inline(always)]
    pub fn builder() -> (r: Self)
        ensures
            r.is_blank(),
    {
        Self::CONST_DEFAULT()
    }

    /// Replace the builtins; the count is the list's length as a C `int`.
    pub fn with_builtins(self, builtins: Vec<builtin>) -> (r: Self)
        ensures
            r.bn_list@ == builtins@,
            r.bn_size == builtins@.len() as c_int,
            r.cd_list@ == self.cd_list@ && r.cd_size == self.cd_size,
            r.mf_list@ == self.mf_list@ && r.mf_size == self.mf_size,
            r.pd_list@ == self.pd_list@ && r.pd_size == self.pd_size,
            r.n_abstract == self.n_abstract,
    {
        let n = builtins.len() as c_int;
        features { bn_list: builtins, bn_size: n, ..self }
    }

    /// Replace the parameters; the count is the list's length as a C `int`.
    pub fn with_params(self, params: Vec<paramdef>) -> (r: Self)
        ensures
            r.pd_list@ == params@,
            r.pd_size == params@.len() as c_int,
            r.bn_list@ == self.bn_list@ && r.bn_size == self.bn_size,
            r.cd_list@ == self.cd_list@ && r.cd_size == self.cd_size,
            r.mf_list@ == self.mf_list@ && r.mf_size == self.mf_size,
            r.n_abstract == self.n_abstract,
    {
        let n = params.len() as c_int;
        features { pd_list: params, pd_size: n, ..self }
    }

    /// Replace the conditions; the count is the list's length as a C `int`.
    pub fn with_conddefs(self, conddefs: Vec<conddef>) -> (r: Self)
        ensures
            r.cd_list@ == conddefs@,
            r.cd_size == conddefs@.len() as c_int,
            r.bn_list@ == self.bn_list@ && r.bn_size == self.bn_size,
            r.mf_list@ == self.mf_list@ && r.mf_size == self.mf_size,
            r.pd_list@ == self.pd_list@ && r.pd_size == self.pd_size,
            r.n_abstract == self.n_abstract,
    {
        let n = conddefs.len() as c_int;
        features { cd_list: conddefs, cd_size: n, ..self }
    }

    /// Replace the math functions; the count is the list's length as a C `int`.
    pub fn with_mathfuncs(self, mathfuncs: Vec<mathfunc>) -> (r: Self)
        ensures
            r.mf_list@ == mathfuncs@,
            r.mf_size == mathfuncs@.len() as c_int,
            r.bn_list@ == self.bn_list@ && r.bn_size == self.bn_size,
            r.cd_list@ == self.cd_list@ && r.cd_size == self.cd_size,
            r.pd_list@ == self.pd_list@ && r.pd_size == self.pd_size,
            r.n_abstract == self.n_abstract,
    {
        let n = mathfuncs.len() as c_int;
        features { mf_list: mathfuncs, mf_size: n, ..self }
    }

    /// Set the number of abstract features.
    pub fn with_n_abstract(self, n_abstract: c_int) -> (r: Self)
        ensures
            r.n_abstract == n_abstract,
            r.bn_list@ == self.bn_list@ && r.bn_size == self.bn_size,
            r.cd_list@ == self.cd_list@ && r.cd_size == self.cd_size,
            r.mf_list@ == self.mf_list@ && r.mf_size == self.mf_size,
            r.pd_list@ == self.pd_list@ && r.pd_size == self.pd_size,
    {
        features { n_abstract, ..self }
    }
}

impl Default for features {
    fn default() -> (r: Self)
        ensures
            r.is_blank(),
    {
        Self::CONST_DEFAULT()
    }
}

} // verus!
