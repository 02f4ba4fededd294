//! Authenticated requests and the builders that put them together.
//!
//! A builder gathers what one call needs: the URL, the authorisation, and
//! the query parameters. Configuring it has no effect outside it. `send`
//! takes the builder, so nothing can be added to a request once it is on its
//! way.

use crate::envelope::Envelope;
use crate::failure::ApiError;
use crate::pagination::{Pager, Step, StepView, start};
use crate::text::{decimal, render_decimal};
use crate::transport::RequestSender;
use vstd::prelude::*;

verus! {

/// The root of every resource path.
pub const BASE_URL: &'static str = "https://api.up.com.au/api/v1";

/// The smallest page size that the API takes.
pub const MIN_PAGE_SIZE: i32 = 1;

/// The largest page size that the API takes.
pub const MAX_PAGE_SIZE: i32 = 30;

/// The mathematical value of a list of query parameters.
pub open spec fn params_view(params: Seq<(String, String)>) -> Seq<(Seq<char>, Seq<char>)> {
    Seq::new(params.len(), |i: int| (params[i].0@, params[i].1@))
}

/// One GET request, ready for the transport: where it goes, what
/// authenticates it, and its query parameters in the order in which they
/// were added.
#[derive(Debug, PartialEq, Eq)]
pub struct Request {
    pub url: String,
    pub auth_header: String,
    pub params: Vec<(String, String)>,
}

/// The mathematical value of a [`Request`], and of a builder on its way to
/// one.
pub struct RequestView {
    pub url: Seq<char>,
    pub auth_header: Seq<char>,
    pub params: Seq<(Seq<char>, Seq<char>)>,
}

impl View for Request {
    type V = RequestView;

    open spec fn view(&self) -> RequestView {
        RequestView {
            url: self.url@,
            auth_header: self.auth_header@,
            params: params_view(self.params@),
        }
    }
}

/// The value of the `Authorization` header for `api_key`.
pub open spec fn bearer(api_key: Seq<char>) -> Seq<char> {
    "Bearer "@ + api_key
}

/// Whether the API takes `page_size` as the size of a page.
pub open spec fn page_size_in_range(page_size: int) -> bool {
    MIN_PAGE_SIZE <= page_size <= MAX_PAGE_SIZE
}

/// The values that `params` gives for `key`, in order.
pub open spec fn values_of(params: Seq<(Seq<char>, Seq<char>)>, key: Seq<char>) -> Seq<Seq<char>>
    decreases params.len(),
{
    if params.len() == 0 {
        Seq::empty()
    } else {
        let before = values_of(params.drop_last(), key);
        if params.last().0 == key {
            before.push(params.last().1)
        } else {
            before
        }
    }
}

/// Whether `value` is the numeral of a page size that the API takes.
pub open spec fn is_page_size(value: Seq<char>) -> bool {
    exists|size: int| page_size_in_range(size) && value == decimal(size as nat)
}

/// Every `page[size]` among `params` carries a size that the API takes.
pub open spec fn page_sizes_in_range(params: Seq<(Seq<char>, Seq<char>)>) -> bool {
    forall|i: int|
        0 <= i < params.len() && (#[trigger] params[i]).0 == "page[size]"@ ==> is_page_size(
            params[i].1,
        )
}

impl RequestView {
    /// The request that starts a call: no query parameters yet.
    pub open spec fn fresh(api_key: Seq<char>, resource_path: Seq<char>) -> RequestView {
        RequestView {
            url: BASE_URL@ + resource_path,
            auth_header: bearer(api_key),
            params: Seq::empty(),
        }
    }

    /// This request with one more query parameter behind the others.
    pub open spec fn with_param(self, key: Seq<char>, value: Seq<char>) -> RequestView {
        RequestView { params: self.params.push((key, value)), ..self }
    }

    /// This request with the page size set: `page[size]` with the decimal
    /// numeral of `page_size` where that is in range, else the request as it
    /// is.
    pub open spec fn with_page_size(self, page_size: int) -> RequestView {
        if page_size_in_range(page_size) {
            self.with_param("page[size]"@, decimal(page_size as nat))
        } else {
            self
        }
    }
}

/// Adds one query parameter behind those of `params`.
fn push_param(params: &mut Vec<(String, String)>, key: &str, value: String)
    ensures
        params_view(final(params)@) == params_view(old(params)@).push((key@, value@)),
{
    params.push((String::from_str(key), value));
}

/// The `Authorization` header that authenticates with `api_key`.
fn bearer_token(api_key: &String) -> (header: String)
    ensures
        header@ == bearer(api_key@),
{
    String::from_str("Bearer ").concat(api_key.as_str())
}

/// Whether the API takes `page_size` as the size of a page.
pub fn accepts_page_size(page_size: i32) -> (yes: bool)
    ensures
        yes == page_size_in_range(page_size as int),
{
    MIN_PAGE_SIZE <= page_size && page_size <= MAX_PAGE_SIZE
}

/// A listing of accounts, being configured.
#[derive(Debug)]
pub struct ListAccounts {
    url: String,
    auth_header: String,
    params: Vec<(String, String)>,
}

impl View for ListAccounts {
    type V = RequestView;

    closed spec fn view(&self) -> RequestView {
        RequestView {
            url: self.url@,
            auth_header: self.auth_header@,
            params: params_view(self.params@),
        }
    }
}

impl ListAccounts {
    /// Whatever was asked of the builder, it holds no page size that the API
    /// would refuse.
    #[verifier::type_invariant]
    spec fn sized_in_range(self) -> bool {
        page_sizes_in_range(params_view(self.params@))
    }

    /// A listing of all accounts that `api_key` can see, without filters.
    pub fn new(api_key: &String) -> (builder: ListAccounts)
        ensures
            builder@ == RequestView::fresh(api_key@, "/accounts"@),
    {
        let builder = ListAccounts {
            url: String::from_str(BASE_URL).concat("/accounts"),
            auth_header: bearer_token(api_key),
            params: Vec::new(),
        };
        assert(params_view(builder.params@) =~= Seq::empty());
        builder
    }

    /// Asks for pages of `page_size` records. A size outside 1 to 30 is
    /// not sent: the builder comes back as it was, and the call does not
    /// fail.
    pub fn page_size(self, page_size: i32) -> (builder: ListAccounts)
        ensures
            builder@ == self@.with_page_size(page_size as int),
    {
        proof {
            use_type_invariant(&self);
        }
        let ListAccounts { url, auth_header, mut params } = self;
        if accepts_page_size(page_size) {
            push_param(&mut params, "page[size]", render_decimal(page_size as u32));
        }
        ListAccounts { url, auth_header, params }
    }

    /// Keeps only accounts of one type, given by the type's canonical name.
    pub fn account_type(self, account_type: String) -> (builder: ListAccounts)
        ensures
            builder@ == self@.with_param("filter[accountType]"@, account_type@),
    {
        proof {
            use_type_invariant(&self);
            reveal_strlit("filter[accountType]");
            reveal_strlit("page[size]");
        }
        let ListAccounts { url, auth_header, mut params } = self;
        push_param(&mut params, "filter[accountType]", account_type);
        assert("filter[accountType]"@.len() != "page[size]"@.len());
        ListAccounts { url, auth_header, params }
    }

    /// Keeps only accounts of one kind of ownership, given by the kind's
    /// canonical name.
    pub fn ownership_type(self, ownership_type: String) -> (builder: ListAccounts)
        ensures
            builder@ == self@.with_param("filter[ownershipType]"@, ownership_type@),
    {
        proof {
            use_type_invariant(&self);
            reveal_strlit("filter[ownershipType]");
            reveal_strlit("page[size]");
        }
        let ListAccounts { url, auth_header, mut params } = self;
        push_param(&mut params, "filter[ownershipType]", ownership_type);
        assert("filter[ownershipType]"@.len() != "page[size]"@.len());
        ListAccounts { url, auth_header, params }
    }

    /// Ends the configuration and starts the listing: the first step names
    /// the request as configured, with nothing gathered yet. However the
    /// builder was configured, the request carries no page size outside 1
    /// to 30.
    pub fn send<T>(self) -> (step: Step<T>)
        ensures
            step@ == start::<T>(self@),
            step@ matches StepView::Fetch(_, request) && page_sizes_in_range(request.params),
    {
        proof {
            use_type_invariant(&self);
        }
        Pager::begin(RequestSender::send(self.url, self.auth_header, self.params))
    }
}

/// The retrieval of one account, being configured.
#[derive(Debug)]
pub struct RetrieveAccount {
    url: String,
    auth_header: String,
}

impl View for RetrieveAccount {
    type V = RequestView;

    closed spec fn view(&self) -> RequestView {
        RequestView { url: self.url@, auth_header: self.auth_header@, params: Seq::empty() }
    }
}

impl RetrieveAccount {
    /// The retrieval of the account with identifier `id`.
    pub fn new(api_key: &String, id: String) -> (builder: RetrieveAccount)
        ensures
            builder@ == RequestView::fresh(api_key@, "/accounts/"@ + id@),
    {
        let builder = RetrieveAccount {
            url: String::from_str(BASE_URL).concat("/accounts/").concat(id.as_str()),
            auth_header: bearer_token(api_key),
        };
        assert(builder.url@ =~= BASE_URL@ + ("/accounts/"@ + id@));
        builder
    }

    /// Ends the configuration: the one request to execute, without query
    /// parameters. There is no second request, whatever the response holds.
    pub fn send(self) -> (request: Request)
        ensures
            request@ == self@,
    {
        let request = RequestSender::send(self.url, self.auth_header, Vec::new());
        assert(request@.params =~= Seq::empty());
        request
    }

    /// What the retrieval returns for the outcome of its one fetch: the
    /// payload of the response as the record, or the error as it is. Links,
    /// should the response have any, are not followed.
    pub fn record<D>(outcome: Result<Envelope<D>, ApiError>) -> (result: Result<D, ApiError>)
        ensures
            match outcome {
                Ok(envelope) => result == Ok::<D, ApiError>(envelope.data),
                Err(error) => result == Err::<D, ApiError>(error),
            },
    {
        match outcome {
            Ok(envelope) => Ok(envelope.data),
            Err(error) => Err(error),
        }
    }
}

/// The page size appears in the request that goes out exactly once, with
/// the numeral of the size asked for, where that size is in range; where it
/// is not, the request has no page size. This holds of a builder whose
/// page size was not set before, whatever else was configured.
pub proof fn law_page_size_once<T>(builder: RequestView, page_size: int)
    requires
        values_of(builder.params, "page[size]"@) == Seq::<Seq<char>>::empty(),
    ensures
        start::<T>(builder.with_page_size(page_size)) matches StepView::Fetch(_, request)
            && values_of(request.params, "page[size]"@) == if page_size_in_range(page_size) {
            seq![decimal(page_size as nat)]
        } else {
            Seq::<Seq<char>>::empty()
        },
{
    let sized = builder.with_page_size(page_size);
    if page_size_in_range(page_size) {
        assert(sized.params.drop_last() =~= builder.params);
    }
}

} // verus!
