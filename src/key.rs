//! Search keys: the script a client subscribes to, with its optional filter.

use vstd::prelude::*;

verus! {

/// Whether a key matches a cell's lock script or its type script.
#[derive(Clone, Copy, Debug, PartialEq, Eq, Hash, Structural)]
pub enum ScriptType {
    Lock,
    Type,
}

/// A script: code hash, hash type (its byte: the low bit set for "type", else
/// "data" of the VM version in the high bits) and arguments.
#[derive(Clone, Debug, PartialEq, Eq, Hash)]
pub struct Script {
    pub code_hash: Vec<u8>,
    pub hash_type: u8,
    pub args: Vec<u8>,
}

/// What a script is, as plain values.
pub struct ScriptModel {
    pub code_hash: Seq<u8>,
    pub hash_type: u8,
    pub args: Seq<u8>,
}

impl View for Script {
    type V = ScriptModel;

    open spec fn view(&self) -> ScriptModel {
        ScriptModel { code_hash: self.code_hash@, hash_type: self.hash_type, args: self.args@ }
    }
}

/// Byte-wise equality of two byte strings.
pub fn bytes_equal(a: &Vec<u8>, b: &Vec<u8>) -> (r: bool)
    ensures
        r == (a@ == b@),
{
    if a.len() != b.len() {
        return false;
    }
    let mut i: usize = 0;
    while i < a.len()
        invariant
            a@.len() == b@.len(),
            i <= a@.len(),
            forall|j: int| 0 <= j < i ==> a@[j] == b@[j],
        decreases a@.len() - i,
    {
        if a[i] != b[i] {
            return false;
        }
        i = i + 1;
    }
    assert(a@ =~= b@);
    true
}

/// A copy of a byte string with the same contents.
pub fn copy_bytes(a: &Vec<u8>) -> (r: Vec<u8>)
    ensures
        r@ == a@,
{
    let mut r: Vec<u8> = Vec::with_capacity(a.len());
    let mut i: usize = 0;
    while i < a.len()
        invariant
            i <= a@.len(),
            r@ == a@.subrange(0, i as int),
        decreases a@.len() - i,
    {
        r.push(a[i]);
        i = i + 1;
        assert(r@ =~= a@.subrange(0, i as int));
    }
    assert(r@ =~= a@);
    r
}

impl Script {
    /// Whether two scripts have the same code hash, hash type and arguments.
    pub fn same(&self, other: &Script) -> (r: bool)
        ensures
            r == (self@ == other@),
    {
        bytes_equal(&self.code_hash, &other.code_hash) && self.hash_type == other.hash_type
            && bytes_equal(&self.args, &other.args)
    }

    /// A copy of the script.
    pub fn duplicate(&self) -> (r: Script)
        ensures
            r@ == self@,
    {
        Script {
            code_hash: copy_bytes(&self.code_hash),
            hash_type: self.hash_type,
            args: copy_bytes(&self.args),
        }
    }
}

/// An inclusive-exclusive range `[start, end)` of unsigned values.
pub type Range = (u64, u64);

/// Equality of two optional ranges.
pub fn same_range(a: &Option<Range>, b: &Option<Range>) -> (r: bool)
    ensures
        r == (*a == *b),
{
    match (a, b) {
        (Some(x), Some(y)) => x.0 == y.0 && x.1 == y.1,
        (None, None) => true,
        _ => false,
    }
}

fn same_script_opt(a: &Option<Script>, b: &Option<Script>) -> (r: bool)
    ensures
        r == (script_opt_view(*a) == script_opt_view(*b)),
{
    match (a, b) {
        (Some(x), Some(y)) => x.same(y),
        (None, None) => true,
        _ => false,
    }
}

fn copy_script_opt(a: &Option<Script>) -> (r: Option<Script>)
    ensures
        script_opt_view(r) == script_opt_view(*a),
{
    match a {
        Some(s) => Some(s.duplicate()),
        None => None,
    }
}

pub open spec fn script_opt_view(s: Option<Script>) -> Option<ScriptModel> {
    match s {
        Some(x) => Some(x@),
        None => None,
    }
}

/// The filter a client attaches to a search key.
#[derive(Clone, Debug, Default, PartialEq, Eq, Hash)]
pub struct RpcSearchKeyFilter {
    pub script: Option<Script>,
    pub script_len_range: Option<Range>,
    pub output_data_len_range: Option<Range>,
    pub output_capacity_range: Option<Range>,
}

pub struct FilterModel {
    pub script: Option<ScriptModel>,
    pub script_len_range: Option<Range>,
    pub output_data_len_range: Option<Range>,
    pub output_capacity_range: Option<Range>,
}

impl View for RpcSearchKeyFilter {
    type V = FilterModel;

    open spec fn view(&self) -> FilterModel {
        FilterModel {
            script: script_opt_view(self.script),
            script_len_range: self.script_len_range,
            output_data_len_range: self.output_data_len_range,
            output_capacity_range: self.output_capacity_range,
        }
    }
}

pub open spec fn filter_opt_view(f: Option<RpcSearchKeyFilter>) -> Option<FilterModel> {
    match f {
        Some(x) => Some(x@),
        None => None,
    }
}

impl RpcSearchKeyFilter {
    /// The filter with nothing set.
    pub fn empty() -> (r: RpcSearchKeyFilter)
        ensures
            r@ == (FilterModel {
                script: None,
                script_len_range: None,
                output_data_len_range: None,
                output_capacity_range: None,
            }),
    {
        RpcSearchKeyFilter {
            script: None,
            script_len_range: None,
            output_data_len_range: None,
            output_capacity_range: None,
        }
    }

    /// Whether two filters are equal field by field.
    pub fn same(&self, other: &RpcSearchKeyFilter) -> (r: bool)
        ensures
            r == (self@ == other@),
    {
        same_script_opt(&self.script, &other.script) && same_range(
            &self.script_len_range,
            &other.script_len_range,
        ) && same_range(&self.output_data_len_range, &other.output_data_len_range)
            && same_range(&self.output_capacity_range, &other.output_capacity_range)
    }

    /// A copy of the filter.
    pub fn duplicate(&self) -> (r: RpcSearchKeyFilter)
        ensures
            r@ == self@,
    {
        RpcSearchKeyFilter {
            script: copy_script_opt(&self.script),
            script_len_range: self.script_len_range,
            output_data_len_range: self.output_data_len_range,
            output_capacity_range: self.output_capacity_range,
        }
    }

    /// The filter of an indexer query: this filter restricted to `block_range`.
    pub fn into_filter(self, block_range: Option<Range>) -> (r: SearchKeyFilter)
        ensures
            r@ == (SearchFilterModel { filter: self@, block_range }),
    {
        SearchKeyFilter {
            script: self.script,
            script_len_range: self.script_len_range,
            output_data_len_range: self.output_data_len_range,
            output_capacity_range: self.output_capacity_range,
            block_range,
        }
    }
}

/// A search key as clients give it: the identity of a registration.
#[derive(Clone, Debug, PartialEq, Eq, Hash)]
pub struct RpcSearchKey {
    pub script: Script,
    pub script_type: ScriptType,
    pub filter: Option<RpcSearchKeyFilter>,
}

pub struct KeyModel {
    pub script: ScriptModel,
    pub script_type: ScriptType,
    pub filter: Option<FilterModel>,
}

impl View for RpcSearchKey {
    type V = KeyModel;

    open spec fn view(&self) -> KeyModel {
        KeyModel {
            script: self.script@,
            script_type: self.script_type,
            filter: filter_opt_view(self.filter),
        }
    }
}

/// The filter of an indexer query.
#[derive(Clone, Debug, PartialEq, Eq, Hash)]
pub struct SearchKeyFilter {
    pub script: Option<Script>,
    pub script_len_range: Option<Range>,
    pub output_data_len_range: Option<Range>,
    pub output_capacity_range: Option<Range>,
    pub block_range: Option<Range>,
}

pub struct SearchFilterModel {
    pub filter: FilterModel,
    pub block_range: Option<Range>,
}

impl View for SearchKeyFilter {
    type V = SearchFilterModel;

    open spec fn view(&self) -> SearchFilterModel {
        SearchFilterModel {
            filter: FilterModel {
                script: script_opt_view(self.script),
                script_len_range: self.script_len_range,
                output_data_len_range: self.output_data_len_range,
                output_capacity_range: self.output_capacity_range,
            },
            block_range: self.block_range,
        }
    }
}

/// The key of an indexer query.
#[derive(Clone, Debug, PartialEq, Eq, Hash)]
pub struct SearchKey {
    pub script: Script,
    pub script_type: ScriptType,
    pub filter: Option<SearchKeyFilter>,
    pub with_data: Option<bool>,
    pub group_by_transaction: Option<bool>,
}

/// The filter that a query built from a key with filter `f` carries: `f`, or
/// the empty filter where there is none, restricted to `block_range`.
pub open spec fn query_filter(f: Option<FilterModel>, block_range: Option<Range>) -> SearchFilterModel {
    SearchFilterModel {
        filter: match f {
            Some(x) => x,
            None => FilterModel {
                script: None,
                script_len_range: None,
                output_data_len_range: None,
                output_capacity_range: None,
            },
        },
        block_range,
    }
}

impl RpcSearchKey {
    /// Whether two keys name the same registration.
    pub fn same(&self, other: &RpcSearchKey) -> (r: bool)
        ensures
            r == (self@ == other@),
    {
        let f = match (&self.filter, &other.filter) {
            (Some(x), Some(y)) => x.same(y),
            (None, None) => true,
            _ => false,
        };
        self.script.same(&other.script) && self.script_type == other.script_type && f
    }

    /// A copy of the key.
    pub fn duplicate(&self) -> (r: RpcSearchKey)
        ensures
            r@ == self@,
    {
        RpcSearchKey {
            script: self.script.duplicate(),
            script_type: self.script_type,
            filter: match &self.filter {
                Some(f) => Some(f.duplicate()),
                None => None,
            },
        }
    }

    /// The indexer query for this key over `block_range`: always filtered,
    /// grouped by transaction, without cell data preference.
    pub fn into_key(self, block_range: Option<Range>) -> (r: SearchKey)
        ensures
            r.script@ == self.script@,
            r.script_type == self.script_type,
            r.filter is Some,
            r.filter.unwrap()@ == query_filter(filter_opt_view(self.filter), block_range),
            r.with_data is None,
            r.group_by_transaction == Some(true),
    {
        let filter = match self.filter {
            Some(f) => f.into_filter(block_range),
            None => RpcSearchKeyFilter::empty().into_filter(block_range),
        };
        SearchKey {
            script: self.script,
            script_type: self.script_type,
            filter: Some(filter),
            with_data: None,
            group_by_transaction: Some(true),
        }
    }
}

} // verus!
