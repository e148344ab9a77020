use vstd::prelude::*;
use crate::error::{auth, none_found, AuthErrorKind, Error, Kind};
use crate::text::{lower_of, same_text, to_lower};
use crate::vm::VirtualMachine;

verus! {

/// The page size asked for when none is given; also the largest the API allows.
pub const DEFAULT_PAGE_SIZE: u16 = 1000;

/// The query text before the comparison operator.
pub const QUERY_HEAD: &'static str = "Resources | where type =~ 'microsoft.compute/virtualmachines' | where tolower(tostring(name)) ";

/// The query text between the name filter and the optional joins.
pub const QUERY_PROJECTION: &'static str = " | extend nics=array_length(properties.networkProfile.networkInterfaces) | mv-expand nic=properties.networkProfile.networkInterfaces | where nics == 1 or nic.properties.primary =~ 'true' or isempty(nic) | project subscriptionId, rg=resourceGroup, vmId = id, vmName = name, location = tostring(location), created = tostring(properties.timeCreated), vmSize=tostring(properties.hardwareProfile.vmSize), nicId = tostring(nic.id), osType = tostring(properties.storageProfile.osDisk.osType), osName = tostring(properties.extended.instanceView.osName), osVersion = tostring(properties.extended.instanceView.osVersion), powerstate = tostring(properties.extended.instanceView.powerState.code)";

/// The query text after the optional joins.
pub const QUERY_TAIL: &'static str = " | join kind=leftouter (ResourceContainers | where type=='microsoft.resources/subscriptions'| project sub=name, subscriptionId) on subscriptionId | join kind=leftouter (Resources| where type =~ 'microsoft.network/networkinterfaces'| extend ipConfigsCount=array_length(properties.ipConfigurations)| extend subnetId = tostring(properties.ipConfigurations[0].properties.subnet.id)| extend virtualNetwork = split(substring(subnetId, indexof(subnetId, '/virtualNetworks/') + strlen('/virtualNetworks/')), '/')[0]| extend subnet = substring(subnetId, indexof(subnetId, '/subnets/') + strlen('/subnets/'))| mv-expand ipconfig=properties.ipConfigurations| where ipConfigsCount == 1 or ipconfig.properties.primary =~ 'true'| project nicId = id, subnet, virtualNetwork, privateIp = tostring(ipconfig.properties.privateIPAddress))on nicId| order by subnet asc";

/// The join that adds each machine's extensions.
pub const EXTENSIONS_JOIN: &'static str = "| join kind=leftouter(Resources | where type =~ 'microsoft.compute/virtualmachines/extensions' | extend vmId = substring(id, 0, indexof(id, '/extensions')) | extend d = pack('name', name, 'version', properties.typeHandlerVersion) | summarize extensions = make_list(d) by vmId) on vmId";

/// The projection that adds each machine's tags.
pub const TAGS_JOIN: &'static str = ", tags=tags";

/// The operator that matches names against a regular expression.
pub const REGEX_OPERATOR: &'static str = "matches regex";

/// The operator that matches names against a list.
pub const LIST_OPERATOR: &'static str = "in";

/// Vendor error code for an expired access token.
pub const CODE_TOKEN_EXPIRED: &'static str = "ExpiredAuthenticationToken";

/// Vendor error code for an access token that is not valid.
pub const CODE_TOKEN_INVALID: &'static str = "InvalidAuthenticationToken";

/// Vendor error code for a denied request.
pub const CODE_ACCESS_DENIED: &'static str = "AccessDenied";

/// `s` between single quotes.
pub open spec fn quoted(s: Seq<char>) -> Seq<char> {
    seq!['\''] + s + seq!['\'']
}

/// Each name quoted, each preceded by a comma and a space.
pub open spec fn listed_after_first(names: Seq<Seq<char>>) -> Seq<char>
    decreases names.len(),
{
    if names.len() == 0 {
        Seq::empty()
    } else {
        listed_after_first(names.drop_last()) + seq![',', ' '] + quoted(names.last())
    }
}

/// The names as a parenthesised, comma-separated list of quoted names; an empty
/// list holds one empty name.
pub open spec fn name_list(names: Seq<Seq<char>>) -> Seq<char> {
    if names.len() == 0 {
        seq!['(', '\'', '\'', ')']
    } else {
        seq!['('] + quoted(names[0]) + listed_after_first(names.subrange(1, names.len() as int))
            + seq![')']
    }
}

/// The operands in lower case.
pub open spec fn lowered(ops: Seq<String>) -> Seq<Seq<char>> {
    ops.map_values(|s: String| lower_of(s@))
}

/// The name filter: a regular-expression match on the first name, or membership
/// in the list of all names.
pub open spec fn name_filter(names: Seq<Seq<char>>, match_regex: bool) -> Seq<char> {
    if match_regex {
        REGEX_OPERATOR@ + seq![' '] + quoted(names[0])
    } else {
        LIST_OPERATOR@ + seq![' '] + name_list(names)
    }
}

/// The whole query text for the given names and options.
pub open spec fn query_text(
    names: Seq<Seq<char>>,
    match_regex: bool,
    show_extensions: bool,
    show_tags: bool,
) -> Seq<char> {
    QUERY_HEAD@ + name_filter(names, match_regex) + QUERY_PROJECTION@ + (if show_tags {
        TAGS_JOIN@
    } else {
        Seq::empty()
    }) + seq![' '] + (if show_extensions {
        EXTENSIONS_JOIN@
    } else {
        Seq::empty()
    }) + QUERY_TAIL@
}

/// A request body for the resource-graph query API.
#[derive(Debug)]
pub struct QueryRequest {
    /// The query text.
    pub query: String,
    /// Paging options.
    pub options: QueryRequestOptions,
    /// The subscriptions to restrict the query to, if any.
    pub subscriptions: Option<Vec<String>>,
}

/// Paging options of a query request.
#[derive(Debug, Clone)]
pub struct QueryRequestOptions {
    /// How many results to skip.
    pub skip: u64,
    /// A continuation token, when the API handed one out.
    pub skip_token: Option<String>,
    /// The page size.
    pub top: u16,
}

impl QueryRequestOptions {
    /// Options with the given values.
    pub fn new(skip: u64, skip_token: Option<String>, top: u16) -> (r: Self)
        ensures
            r.skip == skip,
            r.skip_token == skip_token,
            r.top == top,
    {
        QueryRequestOptions { skip, skip_token, top }
    }
}

impl Default for QueryRequestOptions {
    fn default() -> (r: Self)
        ensures
            r.skip == 0,
            r.skip_token is None,
            r.top == DEFAULT_PAGE_SIZE,
    {
        QueryRequestOptions { skip: 0, skip_token: None, top: DEFAULT_PAGE_SIZE }
    }
}

/// A copy of a list of strings.
pub(crate) fn copy_strings(v: &Vec<String>) -> (r: Vec<String>)
    ensures
        r@ == v@,
{
    let mut r: Vec<String> = Vec::new();
    let mut i: usize = 0;
    while i < v.len()
        invariant
            i <= v@.len(),
            r@ == v@.subrange(0, i as int),
        decreases v@.len() - i,
    {
        r.push(v[i].clone());
        i = i + 1;
        assert(r@ =~= v@.subrange(0, i as int));
    }
    assert(r@ =~= v@);
    r
}

/// A copy of an optional list of strings.
pub(crate) fn copy_optional_strings(v: &Option<Vec<String>>) -> (r: Option<Vec<String>>)
    ensures
        r is Some <==> v is Some,
        r is Some ==> r->Some_0@ == v->Some_0@,
{
    match v {
        Some(l) => Some(copy_strings(l)),
        None => None,
    }
}

impl QueryRequest {
    /// Builds the request body that asks for the machines named in `query_items`
    /// (in lower case), or, with `match_regex`, for those whose name matches the
    /// first item; the joins for extensions and tags are added on request.
    /// `skip` defaults to 0 and `top` to the default page size.
    pub fn make(
        query_items: &Vec<String>,
        match_regex: bool,
        show_extensions: bool,
        show_tags: bool,
        skip: Option<u64>,
        top: Option<u16>,
        subscriptions: &Option<Vec<String>>,
    ) -> (r: Self)
        requires
            match_regex ==> query_items@.len() > 0,
        ensures
            r.query@ == query_text(lowered(query_items@), match_regex, show_extensions, show_tags),
            r.options.skip == (match skip {
                Some(s) => s,
                None => 0,
            }),
            r.options.top == (match top {
                Some(t) => t,
                None => DEFAULT_PAGE_SIZE,
            }),
            r.options.skip_token is None,
            r.subscriptions is Some <==> subscriptions is Some,
            r.subscriptions is Some ==> r.subscriptions->Some_0@ == subscriptions->Some_0@,
    {
        let ghost names = lowered(query_items@);
        let skip_param: u64 = match skip {
            Some(s) => s,
            None => 0,
        };
        let top_param: u16 = match top {
            Some(t) => t,
            None => DEFAULT_PAGE_SIZE,
        };
        let mut query = String::new();
        query.append(QUERY_HEAD);
        if match_regex {
            let first = to_lower(query_items[0].as_str());
            query.append(REGEX_OPERATOR);
            query.append(" '");
            query.append(first.as_str());
            query.append("'");
            proof {
                reveal_strlit(" '");
                reveal_strlit("'");
                assert(query@ =~= QUERY_HEAD@ + name_filter(names, match_regex));
            }
        } else {
            query.append(LIST_OPERATOR);
            if query_items.len() == 0 {
                query.append(" ('')");
                proof {
                    reveal_strlit(" ('')");
                    assert(query@ =~= QUERY_HEAD@ + name_filter(names, match_regex));
                }
            } else {
                let first = to_lower(query_items[0].as_str());
                query.append(" ('");
                query.append(first.as_str());
                query.append("'");
                let ghost start = query@;
                proof {
                    assert(names.subrange(1, 1) =~= Seq::<Seq<char>>::empty());
                    assert(query@ =~= start + listed_after_first(names.subrange(1, 1)));
                }
                let mut i: usize = 1;
                while i < query_items.len()
                    invariant
                        1 <= i <= query_items@.len(),
                        names == lowered(query_items@),
                        query@ == start + listed_after_first(names.subrange(1, i as int)),
                    decreases query_items@.len() - i,
                {
                    let name = to_lower(query_items[i].as_str());
                    query.append(", '");
                    query.append(name.as_str());
                    query.append("'");
                    proof {
                        reveal_strlit(", '");
                        reveal_strlit("'");
                        let prev = names.subrange(1, i as int);
                        let next = names.subrange(1, i as int + 1);
                        assert(next.drop_last() =~= prev);
                        assert(next.last() == lower_of(query_items@[i as int]@));
                        assert(query@ =~= start + listed_after_first(next));
                    }
                    i = i + 1;
                }
                query.append(")");
                proof {
                    reveal_strlit(" ('");
                    reveal_strlit("'");
                    reveal_strlit(")");
                    assert(query@ =~= QUERY_HEAD@ + name_filter(names, match_regex));
                }
            }
        }
        query.append(QUERY_PROJECTION);
        if show_tags {
            query.append(TAGS_JOIN);
        }
        query.append(" ");
        if show_extensions {
            query.append(EXTENSIONS_JOIN);
        }
        query.append(QUERY_TAIL);
        proof {
            reveal_strlit(" ");
            assert(query@ =~= query_text(names, match_regex, show_extensions, show_tags));
        }
        QueryRequest {
            query,
            options: QueryRequestOptions::new(skip_param, None, top_param),
            subscriptions: copy_optional_strings(subscriptions),
        }
    }
}

/// One page of query results.
#[derive(Debug, Clone)]
pub struct QueryResponse {
    /// How many records match the query on the server, whatever the page size.
    pub total_results: u64,
    /// The records of this page.
    pub data: Vec<VirtualMachine>,
}

impl Default for QueryResponse {
    fn default() -> (r: Self)
        ensures
            r.total_results == 0,
            r.data@.len() == 0,
    {
        QueryResponse { total_results: 0, data: Vec::new() }
    }
}

/// The cache key of a record: its name in lower case, if it has a name.
pub open spec fn record_key(vm: VirtualMachine) -> Option<Seq<char>> {
    match vm.vm_name {
        Some(n) => Some(lower_of(n@)),
        None => None,
    }
}

impl QueryResponse {
    /// The key under which each record of the page is cached, in the order of
    /// the records: the record's name in lower case, or nothing for a record
    /// without a name.
    pub fn cache_keys(&self) -> (r: Vec<Option<String>>)
        ensures
            r@.len() == self.data@.len(),
            forall|i: int|
                0 <= i < r@.len() ==> (match #[trigger] r@[i] {
                    Some(k) => record_key(self.data@[i]) == Some(k@),
                    None => record_key(self.data@[i]) is None,
                }),
    {
        let mut r: Vec<Option<String>> = Vec::new();
        let mut i: usize = 0;
        while i < self.data.len()
            invariant
                i <= self.data@.len(),
                r@.len() == i,
                forall|j: int|
                    0 <= j < i ==> (match #[trigger] r@[j] {
                        Some(k) => record_key(self.data@[j]) == Some(k@),
                        None => record_key(self.data@[j]) is None,
                    }),
            decreases self.data@.len() - i,
        {
            let key = match &self.data[i].vm_name {
                Some(n) => Some(to_lower(n.as_str())),
                None => None,
            };
            r.push(key);
            i = i + 1;
        }
        r
    }
}

/// An error object that the API embeds in a response.
#[derive(Debug, Clone)]
pub struct AzureError {
    /// The vendor's error code.
    pub code: String,
    /// The vendor's message.
    pub message: String,
}

/// What the query API answers: a page of results, or an embedded error.
#[derive(Debug)]
pub enum QueryResponseType {
    /// A page of results.
    Page(QueryResponse),
    /// An error object.
    Failure {
        /// The error the API reported.
        error: AzureError,
    },
}

/// The authentication failure that a vendor error code stands for.
pub open spec fn auth_kind_for_code(code: Seq<char>) -> AuthErrorKind {
    if code == CODE_TOKEN_EXPIRED@ {
        AuthErrorKind::TokenExpired
    } else if code == CODE_TOKEN_INVALID@ {
        AuthErrorKind::BadCredentials
    } else if code == CODE_ACCESS_DENIED@ {
        AuthErrorKind::AccessDenied
    } else {
        AuthErrorKind::BadRequest
    }
}

/// The authentication failure that a vendor error code stands for: an expired
/// token, a token that is not valid, a denied access, or else a bad request.
pub fn auth_error_kind(code: &str) -> (r: AuthErrorKind)
    ensures
        r == auth_kind_for_code(code@),
{
    if same_text(code, CODE_TOKEN_EXPIRED) {
        AuthErrorKind::TokenExpired
    } else if same_text(code, CODE_TOKEN_INVALID) {
        AuthErrorKind::BadCredentials
    } else if same_text(code, CODE_ACCESS_DENIED) {
        AuthErrorKind::AccessDenied
    } else {
        AuthErrorKind::BadRequest
    }
}

/// What a page request yields, given what the API answered: the page, if it
/// holds records; a none-found error for an empty page; an authentication error
/// of the kind the vendor code stands for, carrying the code and message.
pub open spec fn classified(resp: QueryResponseType, r: Result<QueryResponse, Error>) -> bool {
    match resp {
        QueryResponseType::Page(page) => if page.data@.len() == 0 {
            r is Err && r->Err_0.kind == Kind::NoneFoundError
        } else {
            r == Ok::<QueryResponse, Error>(page)
        },
        QueryResponseType::Failure { error } => r is Err && r->Err_0.kind == Kind::AuthenticationError(
            auth_kind_for_code(error.code@),
        ) && r->Err_0.message@ == error.code@ + seq![':', ' '] + error.message@,
    }
}

/// Turns the API's answer to one page request into the page or a typed error.
pub fn classify_response(resp: QueryResponseType) -> (r: Result<QueryResponse, Error>)
    ensures
        classified(resp, r),
{
    match resp {
        QueryResponseType::Page(page) => {
            if page.data.len() == 0 {
                Err(none_found("no virtual machines were found with the provided query"))
            } else {
                Ok(page)
            }
        },
        QueryResponseType::Failure { error } => {
            let kind = auth_error_kind(error.code.as_str());
            let mut message = error.code.clone();
            message.append(": ");
            message.append(error.message.as_str());
            proof {
                reveal_strlit(": ");
                assert(": "@ =~= seq![':', ' ']);
            }
            Err(auth(kind, message.as_str()))
        },
    }
}

} // verus!
