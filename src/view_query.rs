use crate::doc::DocIdentifier;
use crate::errors::{ErrorCode, ErrorModel, WorkspaceError};
use crate::parser::{normalize, ViewId, ViewIdError};
use vstd::prelude::*;

verus! {

/// A query for views, as received: zero or more identifiers, not yet checked.
#[derive(Debug)]
pub struct QueryViewRequest {
    pub view_ids: Vec<String>,
}

/// The identifier of one view, in normalized form.
#[derive(Clone, Debug)]
pub struct ViewIdentifier {
    pub view_id: String,
}

/// The identifiers of zero or more views, each in normalized form, in the order asked for.
#[derive(Debug)]
pub struct ViewIdentifiers {
    pub view_ids: Vec<String>,
}

/// The characters of each string of `v`, in order.
pub open spec fn strings_view(v: Seq<String>) -> Seq<Seq<char>> {
    v.map_values(|s: String| s@)
}

impl View for QueryViewRequest {
    type V = Seq<Seq<char>>;

    open spec fn view(&self) -> Seq<Seq<char>> {
        strings_view(self.view_ids@)
    }
}

impl View for ViewIdentifier {
    type V = Seq<char>;

    open spec fn view(&self) -> Seq<char> {
        self.view_id@
    }
}

impl View for ViewIdentifiers {
    type V = Seq<Seq<char>>;

    open spec fn view(&self) -> Seq<Seq<char>> {
        strings_view(self.view_ids@)
    }
}

/// The error raised when a single identifier is asked for and the request
/// does not hold exactly one.
pub open spec fn count_error() -> ErrorModel {
    ErrorModel {
        code: ErrorCode::ViewIdInvalid,
        msg: "the count of identifiers should be equal to 1"@,
        cause: None,
    }
}

/// The error raised when a raw identifier fails normalization with `cause`.
pub open spec fn parse_error(cause: ViewIdError) -> ErrorModel {
    ErrorModel { code: ErrorCode::ViewIdInvalid, msg: cause.message_spec(), cause: Some(cause) }
}

/// What converting `raw` to a single identifier yields.
pub open spec fn convert_single(raw: Seq<Seq<char>>) -> Result<Seq<char>, ErrorModel> {
    if raw.len() != 1 {
        Err(count_error())
    } else {
        match normalize(raw[0]) {
            Ok(id) => Ok(id),
            Err(cause) => Err(parse_error(cause)),
        }
    }
}

/// Normalizes every entry of `raw` in order, stopping at the first failure.
pub open spec fn normalize_all(raw: Seq<Seq<char>>) -> Result<Seq<Seq<char>>, ViewIdError>
    decreases raw.len(),
{
    if raw.len() == 0 {
        Ok(Seq::empty())
    } else {
        match normalize_all(raw.drop_last()) {
            Err(cause) => Err(cause),
            Ok(ids) => match normalize(raw.last()) {
                Ok(id) => Ok(ids.push(id)),
                Err(cause) => Err(cause),
            },
        }
    }
}

/// What converting `raw` to a batch of identifiers yields.
pub open spec fn convert_batch(raw: Seq<Seq<char>>) -> Result<Seq<Seq<char>>, ErrorModel> {
    match normalize_all(raw) {
        Ok(ids) => Ok(ids),
        Err(cause) => Err(parse_error(cause)),
    }
}

impl Default for QueryViewRequest {
    fn default() -> (r: QueryViewRequest)
        ensures
            r@ == Seq::<Seq<char>>::empty(),
    {
        let r = QueryViewRequest { view_ids: Vec::new() };
        assert(r@ =~= Seq::<Seq<char>>::empty());
        r
    }
}

impl Default for ViewIdentifier {
    fn default() -> (r: ViewIdentifier)
        ensures
            r@ == Seq::<char>::empty(),
    {
        ViewIdentifier { view_id: String::new() }
    }
}

impl Default for ViewIdentifiers {
    fn default() -> (r: ViewIdentifiers)
        ensures
            r@ == Seq::<Seq<char>>::empty(),
    {
        let r = ViewIdentifiers { view_ids: Vec::new() };
        assert(r@ =~= Seq::<Seq<char>>::empty());
        r
    }
}

/// Wraps a string that is already in normalized form; no check is made.
impl From<String> for ViewIdentifier {
    fn from(view_id: String) -> (r: ViewIdentifier) {
        ViewIdentifier { view_id }
    }
}

impl vstd::std_specs::convert::FromSpecImpl<String> for ViewIdentifier {
    open spec fn obeys_from_spec() -> bool {
        true
    }

    open spec fn from_spec(view_id: String) -> ViewIdentifier {
        ViewIdentifier { view_id }
    }
}

/// A view's identifier names its document: the value is carried over unchanged.
impl From<ViewIdentifier> for DocIdentifier {
    fn from(id: ViewIdentifier) -> (r: DocIdentifier) {
        DocIdentifier { doc_id: id.view_id }
    }
}

impl vstd::std_specs::convert::FromSpecImpl<ViewIdentifier> for DocIdentifier {
    open spec fn obeys_from_spec() -> bool {
        true
    }

    open spec fn from_spec(id: ViewIdentifier) -> DocIdentifier {
        DocIdentifier { doc_id: id.view_id }
    }
}

/// Once a prefix of `raw` fails normalization, the whole of `raw` fails with the same cause.
proof fn lemma_failure_extends(raw: Seq<Seq<char>>, k: int)
    requires
        0 <= k <= raw.len(),
        normalize_all(raw.take(k)) is Err,
    ensures
        normalize_all(raw) == normalize_all(raw.take(k)),
    decreases raw.len() - k,
{
    if k < raw.len() {
        assert(raw.take(k + 1).drop_last() =~= raw.take(k));
        lemma_failure_extends(raw, k + 1);
    } else {
        assert(raw.take(k) =~= raw);
    }
}

/// `normalize_all` succeeds exactly when every entry normalizes, and then yields the
/// normalized entries in order; when it fails, its cause is that of the first entry that fails.
proof fn lemma_normalize_all(raw: Seq<Seq<char>>)
    ensures
        normalize_all(raw) is Ok <==> forall|i: int| 0 <= i < raw.len() ==> #[trigger] normalize(raw[i]) is Ok,
        normalize_all(raw) is Ok ==> {
            let ids = normalize_all(raw)->Ok_0;
            &&& ids.len() == raw.len()
            &&& forall|i: int| 0 <= i < raw.len() ==> #[trigger] normalize(raw[i]) == Ok::<Seq<char>, ViewIdError>(ids[i])
        },
        normalize_all(raw) is Err ==> exists|i: int|
            0 <= i < raw.len() && (forall|j: int| 0 <= j < i ==> #[trigger] normalize(raw[j]) is Ok)
                && #[trigger] normalize(raw[i]) == Err::<Seq<char>, ViewIdError>(normalize_all(raw)->Err_0),
    decreases raw.len(),
{
    if raw.len() > 0 {
        let init = raw.drop_last();
        lemma_normalize_all(init);
        assert(forall|i: int| 0 <= i < init.len() ==> init[i] == raw[i]);
        if normalize_all(init) is Err {
            let i = choose|i: int|
                0 <= i < init.len() && (forall|j: int| 0 <= j < i ==> #[trigger] normalize(init[j]) is Ok)
                    && #[trigger] normalize(init[i]) == Err::<Seq<char>, ViewIdError>(normalize_all(init)->Err_0);
            assert(forall|j: int| 0 <= j < i ==> #[trigger] normalize(raw[j]) is Ok);
            assert(normalize(raw[i]) is Err);
        } else if normalize(raw.last()) is Err {
            assert(normalize(raw[raw.len() - 1]) is Err);
        }
    }
}

impl QueryViewRequest {
    /// Converts the request into the identifier of one view: the request must hold
    /// exactly one identifier, and it must pass normalization.
    pub fn try_into_identifier(self) -> (r: Result<ViewIdentifier, WorkspaceError>)
        ensures
            match r {
                Ok(id) => convert_single(self@) == Ok::<Seq<char>, ErrorModel>(id@),
                Err(e) => convert_single(self@) == Err::<Seq<char>, ErrorModel>(e@),
            },
    {
        let mut view_ids = self.view_ids;
        if view_ids.len() != 1 {
            let msg = String::from_str("the count of identifiers should be equal to 1");
            return Err(WorkspaceError::invalid_view_id().context(msg));
        }
        let raw = view_ids.pop().unwrap();
        match ViewId::parse(raw) {
            Ok(id) => Ok(ViewIdentifier { view_id: id.0 }),
            Err(cause) => Err(WorkspaceError::invalid_view_id().caused_by(cause)),
        }
    }

    /// Converts the request into the identifiers of its views, in order; every entry
    /// must pass normalization, and the first one that does not fails the whole request.
    pub fn try_into_identifiers(self) -> (r: Result<ViewIdentifiers, WorkspaceError>)
        ensures
            match r {
                Ok(ids) => convert_batch(self@) == Ok::<Seq<Seq<char>>, ErrorModel>(ids@),
                Err(e) => convert_batch(self@) == Err::<Seq<Seq<char>>, ErrorModel>(e@),
            },
    {
        let ghost raw = self@;
        let mut view_ids: Vec<String> = Vec::new();
        let n = self.view_ids.len();
        assert(raw.take(0) =~= Seq::empty());
        assert(strings_view(view_ids@) =~= Seq::empty());
        for i in 0..n
            invariant
                n == self.view_ids.len(),
                raw == self@,
                normalize_all(raw.take(i as int)) == Ok::<Seq<Seq<char>>, ViewIdError>(
                    strings_view(view_ids@),
                ),
        {
            let ghost done = strings_view(view_ids@);
            proof {
                assert(raw.take(i + 1).drop_last() =~= raw.take(i as int));
                assert(raw.take(i + 1).last() == raw[i as int]);
            }
            match ViewId::parse(self.view_ids[i].clone()) {
                Ok(id) => {
                    view_ids.push(id.0);
                    assert(strings_view(view_ids@) =~= done.push(raw[i as int]));
                },
                Err(cause) => {
                    proof {
                        lemma_failure_extends(raw, i + 1);
                    }
                    return Err(WorkspaceError::invalid_view_id().caused_by(cause));
                },
            }
        }
        assert(raw.take(n as int) =~= raw);
        Ok(ViewIdentifiers { view_ids })
    }
}

/// A request with exactly one entry that normalizes to `n` converts to the single identifier `n`.
pub proof fn law_single_of_one(raw: Seq<Seq<char>>, n: Seq<char>)
    requires
        raw.len() == 1,
        normalize(raw[0]) == Ok::<Seq<char>, ViewIdError>(n),
    ensures
        convert_single(raw) == Ok::<Seq<char>, ErrorModel>(n),
{
}

/// A request that does not hold exactly one entry never converts to a single identifier:
/// it fails as an invalid identifier, with the count message.
pub proof fn law_single_needs_one(raw: Seq<Seq<char>>)
    requires
        raw.len() != 1,
    ensures
        convert_single(raw) == Err::<Seq<char>, ErrorModel>(count_error()),
        count_error().code == ErrorCode::ViewIdInvalid,
        count_error().cause is None,
{
}

/// A request whose one entry fails normalization fails to convert to a single identifier,
/// as an invalid identifier caused by that failure.
pub proof fn law_single_parse_failure(raw: Seq<Seq<char>>, cause: ViewIdError)
    requires
        raw.len() == 1,
        normalize(raw[0]) == Err::<Seq<char>, ViewIdError>(cause),
    ensures
        convert_single(raw) == Err::<Seq<char>, ErrorModel>(parse_error(cause)),
        parse_error(cause).code == ErrorCode::ViewIdInvalid,
        parse_error(cause).cause == Some(cause),
{
}

/// Converting to a batch succeeds exactly when every entry normalizes; the batch then has
/// one entry for each entry of the request, its normalized form, in the same order.
pub proof fn law_batch_all_or_nothing(raw: Seq<Seq<char>>)
    ensures
        convert_batch(raw) is Ok <==> forall|i: int| 0 <= i < raw.len() ==> #[trigger] normalize(raw[i]) is Ok,
        convert_batch(raw) is Ok ==> {
            let ids = convert_batch(raw)->Ok_0;
            &&& ids.len() == raw.len()
            &&& forall|i: int| 0 <= i < raw.len() ==> #[trigger] normalize(raw[i]) == Ok::<Seq<char>, ViewIdError>(ids[i])
        },
{
    lemma_normalize_all(raw);
}

/// When some entry fails normalization, converting to a batch yields no batch: it fails as an
/// invalid identifier, caused by the failure of the first entry that fails.
pub proof fn law_batch_failure(raw: Seq<Seq<char>>, k: int)
    requires
        0 <= k < raw.len(),
        normalize(raw[k]) is Err,
    ensures
        convert_batch(raw) is Err,
        convert_batch(raw)->Err_0.code == ErrorCode::ViewIdInvalid,
        exists|i: int|
            0 <= i < raw.len() && (forall|j: int| 0 <= j < i ==> #[trigger] normalize(raw[j]) is Ok)
                && #[trigger] normalize(raw[i]) is Err
                && convert_batch(raw) == Err::<Seq<Seq<char>>, ErrorModel>(parse_error(normalize(raw[i])->Err_0)),
{
    lemma_normalize_all(raw);
}

/// An empty request converts to an empty batch, but not to a single identifier.
pub proof fn law_empty_request(raw: Seq<Seq<char>>)
    requires
        raw.len() == 0,
    ensures
        convert_batch(raw) == Ok::<Seq<Seq<char>>, ErrorModel>(Seq::empty()),
        convert_single(raw) == Err::<Seq<char>, ErrorModel>(count_error()),
{
}

} // verus!
