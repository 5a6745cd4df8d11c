//! The client: who the credential belongs to, which repositories they own,
//! and how one of them is archived.
//!
//! Each operation comes in two halves. One builds the request to send; the
//! other reads the reply. Between the two, a driver performs the exchange.

use vstd::prelude::*;
use vstd::string::*;
use crate::error::{Error, ErrorModel};
use crate::json::{json_document, lemma_object_view, member_models, Json, JsonModel, Member};
use crate::repository::{
    active, active_only, archived, lemma_active_all_unarchived, lemma_active_count, listing_of,
    models, repositories_from_document, Repository, RepositoryModel,
};
use crate::session::{Session, SessionModel};
use crate::transport::{
    is_success, status_is_success, Method, Reply, ReplyModel, Request, RequestModel, BASE_URL,
};

verus! {

/// The request that asks the service whom the credential belongs to.
pub open spec fn identity_request() -> RequestModel {
    RequestModel { method: Method::Get, url: BASE_URL@ + "user"@, body: None }
}

/// The request that lists the repositories that `username` owns.
pub open spec fn listing_request(username: Seq<char>) -> RequestModel {
    RequestModel {
        method: Method::Get,
        url: BASE_URL@ + "users/"@ + username + "/repos"@,
        body: None,
    }
}

/// The document that marks a repository as archived.
pub open spec fn archive_document() -> JsonModel {
    JsonModel::Object(seq![("archived"@, JsonModel::Bool(true))])
}

/// The request that archives the repository `name` of `username`.
pub open spec fn archive_request(username: Seq<char>, name: Seq<char>) -> RequestModel {
    RequestModel {
        method: Method::Patch,
        url: BASE_URL@ + "repos/"@ + username + "/"@ + name,
        body: Some(archive_document()),
    }
}

/// Whose credential it is, according to a response with `status` whose body
/// denotes `document`. A status other than success is an authentication
/// failure; a body that is no document, or has no string `login`, is a
/// protocol failure.
pub open spec fn identity_from(status: u16, document: Option<JsonModel>) -> Result<
    Seq<char>,
    ErrorModel,
> {
    if !status_is_success(status) {
        Err(ErrorModel::Authentication { status })
    } else {
        match document {
            Some(tree) => match tree.text_field("login"@) {
                Some(login) => Ok(login),
                None => Err(ErrorModel::Protocol),
            },
            None => Err(ErrorModel::Protocol),
        }
    }
}

/// Whose credential it is, according to the reply to an identity request.
pub open spec fn identity_outcome(reply: ReplyModel) -> Result<Seq<char>, ErrorModel> {
    match reply {
        ReplyModel::Failed { detail } => Err(ErrorModel::Transport { detail }),
        ReplyModel::Received { status, body } => identity_from(status, json_document(body)),
    }
}

/// The active repositories, according to a response with `status` whose body
/// denotes `document`. A status other than success is a remote failure; a
/// body that is no document, or no listing, is a protocol failure.
pub open spec fn listing_from(status: u16, document: Option<JsonModel>) -> Result<
    Seq<RepositoryModel>,
    ErrorModel,
> {
    if !status_is_success(status) {
        Err(ErrorModel::Remote { status, repository: None })
    } else {
        match document {
            Some(tree) => match listing_of(tree) {
                Some(all) => Ok(active(all)),
                None => Err(ErrorModel::Protocol),
            },
            None => Err(ErrorModel::Protocol),
        }
    }
}

/// Every repository that the body of a reply lists, archived or not; empty
/// where the reply holds no listing.
pub open spec fn listed(reply: ReplyModel) -> Seq<RepositoryModel> {
    match reply {
        ReplyModel::Received { status, body } => match json_document(body) {
            Some(tree) => match listing_of(tree) {
                Some(all) => all,
                None => Seq::empty(),
            },
            None => Seq::empty(),
        },
        ReplyModel::Failed { detail } => Seq::empty(),
    }
}

/// The active repositories, according to the reply to a listing request.
pub open spec fn listing_outcome(reply: ReplyModel) -> Result<Seq<RepositoryModel>, ErrorModel> {
    match reply {
        ReplyModel::Failed { detail } => Err(ErrorModel::Transport { detail }),
        ReplyModel::Received { status, body } => listing_from(status, json_document(body)),
    }
}

/// Whether the repository `name` was archived, according to the reply to the
/// request that archives it. The body of the response plays no part.
pub open spec fn archive_outcome(name: Seq<char>, reply: ReplyModel) -> Result<(), ErrorModel> {
    match reply {
        ReplyModel::Failed { detail } => Err(ErrorModel::Transport { detail }),
        ReplyModel::Received { status, body } => if status_is_success(status) {
            Ok(())
        } else {
            Err(ErrorModel::Remote { status, repository: Some(name) })
        },
    }
}

/// Builds the request that asks the service whom the credential belongs to.
pub fn get_username_request() -> (request: Request)
    ensures
        request@ == identity_request(),
{
    let mut url = BASE_URL.to_owned();
    url.append("user");
    Request { method: Method::Get, url, body: None }
}

/// Reads the account name from a response to an identity request, given its
/// status and the document that its body denotes.
pub fn username_from_response(status: u16, document: Option<&Json>) -> (outcome: Result<
    String,
    Error,
>)
    ensures
        match outcome {
            Ok(login) => identity_from(status, document_model(document)) == Ok::<
                Seq<char>,
                ErrorModel,
            >(login@),
            Err(e) => identity_from(status, document_model(document)) == Err::<
                Seq<char>,
                ErrorModel,
            >(e@),
        },
{
    if !is_success(status) {
        return Err(Error::Authentication { status });
    }
    match document {
        Some(tree) => match tree.text_at("login") {
            Some(login) => Ok(login.clone()),
            None => Err(Error::Protocol),
        },
        None => Err(Error::Protocol),
    }
}

/// The value of a document that may be absent.
pub open spec fn document_model(document: Option<&Json>) -> Option<JsonModel> {
    match document {
        Some(tree) => Some(tree@),
        None => None,
    }
}

/// Reads the account name from the reply to an identity request.
pub fn get_username(reply: &Reply) -> (outcome: Result<String, Error>)
    ensures
        match outcome {
            Ok(login) => identity_outcome(reply@) == Ok::<Seq<char>, ErrorModel>(login@),
            Err(e) => identity_outcome(reply@) == Err::<Seq<char>, ErrorModel>(e@),
        },
{
    match reply {
        Reply::Failed { detail } => Err(Error::Transport { detail: detail.clone() }),
        Reply::Received(response) => {
            let document = if is_success(response.status) {
                Json::parse(response.body.as_slice())
            } else {
                None
            };
            username_from_response(response.status, document.as_ref())
        },
    }
}

/// Reads the active repositories from a response to a listing request, given
/// its status and the document that its body denotes.
pub fn repos_from_response(status: u16, document: Option<&Json>) -> (outcome: Result<
    Vec<Repository>,
    Error,
>)
    ensures
        match outcome {
            Ok(repos) => {
                &&& listing_from(status, document_model(document)) == Ok::<
                    Seq<RepositoryModel>,
                    ErrorModel,
                >(models(repos@))
                &&& forall|i: int| 0 <= i < repos.len() ==> !(#[trigger] repos[i]).archived
            },
            Err(e) => listing_from(status, document_model(document)) == Err::<
                Seq<RepositoryModel>,
                ErrorModel,
            >(e@),
        },
{
    if !is_success(status) {
        return Err(Error::Remote { status, repository: None });
    }
    match document {
        Some(tree) => match repositories_from_document(tree) {
            Some(all) => Ok(active_only(&all)),
            None => Err(Error::Protocol),
        },
        None => Err(Error::Protocol),
    }
}

/// A client of the service, bound to the account that its credential
/// belongs to.
pub struct GitHub {
    session: Session,
    username: String,
}

/// The mathematical value of a [`GitHub`] client.
pub struct GitHubModel {
    pub session: SessionModel,
    pub username: Seq<char>,
}

impl View for GitHub {
    type V = GitHubModel;

    closed spec fn view(&self) -> GitHubModel {
        GitHubModel { session: self.session@, username: self.username@ }
    }
}

impl GitHub {
    /// Makes a client from the settings of its session and the reply to the
    /// identity request that was sent through that session.
    ///
    /// There is a client exactly when the reply names an account; otherwise
    /// the error of the identity lookup is returned and nothing else.
    pub fn new(session: Session, reply: &Reply) -> (made: Result<GitHub, Error>)
        ensures
            match made {
                Ok(client) => identity_outcome(reply@) == Ok::<Seq<char>, ErrorModel>(
                    client@.username,
                ) && client@.session == session@,
                Err(e) => identity_outcome(reply@) == Err::<Seq<char>, ErrorModel>(e@),
            },
    {
        match get_username(reply) {
            Ok(username) => Ok(GitHub { session, username }),
            Err(e) => Err(e),
        }
    }

    /// The settings of the session that the client's requests go through.
    pub fn session(&self) -> (session: &Session)
        ensures
            session@ == self@.session,
    {
        &self.session
    }

    /// The account that the credential belongs to.
    pub fn username(&self) -> (username: &str)
        ensures
            username@ == self@.username,
    {
        self.username.as_str()
    }

    /// Builds the request that lists the repositories of the account.
    pub fn get_repos_request(&self) -> (request: Request)
        ensures
            request@ == listing_request(self@.username),
    {
        let mut url = BASE_URL.to_owned();
        url.append("users/");
        url.append(self.username.as_str());
        url.append("/repos");
        Request { method: Method::Get, url, body: None }
    }

    /// Reads the active repositories from the reply to a listing request.
    ///
    /// Of a listing of N repositories of which M are archived, the N - M
    /// others are returned, in the order of the listing.
    pub fn get_repos(&self, reply: &Reply) -> (outcome: Result<Vec<Repository>, Error>)
        ensures
            match outcome {
                Ok(repos) => {
                    &&& listing_outcome(reply@) == Ok::<Seq<RepositoryModel>, ErrorModel>(
                        models(repos@),
                    )
                    &&& forall|i: int| 0 <= i < repos.len() ==> !(#[trigger] repos[i]).archived
                    &&& repos.len() == listed(reply@).len() - archived(listed(reply@)).len()
                },
                Err(e) => listing_outcome(reply@) == Err::<Seq<RepositoryModel>, ErrorModel>(e@),
            },
    {
        match reply {
            Reply::Failed { detail } => Err(Error::Transport { detail: detail.clone() }),
            Reply::Received(response) => {
                let document = if is_success(response.status) {
                    Json::parse(response.body.as_slice())
                } else {
                    None
                };
                proof {
                    lemma_active_count(listed(reply@));
                }
                repos_from_response(response.status, document.as_ref())
            },
        }
    }

    /// Builds the request that archives the repository `name` of the account.
    pub fn archive_repo_request(&self, name: &str) -> (request: Request)
        ensures
            request@ == archive_request(self@.username, name@),
    {
        let mut url = BASE_URL.to_owned();
        url.append("repos/");
        url.append(self.username.as_str());
        url.append("/");
        url.append(name);
        let mut members: Vec<Member> = Vec::new();
        members.push(Member { key: "archived".to_owned(), value: Json::Bool(true) });
        proof {
            lemma_object_view(members);
            assert(member_models(members@) =~= seq![("archived"@, JsonModel::Bool(true))]);
        }
        Request { method: Method::Patch, url, body: Some(Json::Object(members)) }
    }

    /// Reads whether the repository `name` was archived from the reply to
    /// the request that archives it.
    pub fn archive_repo(&self, name: &str, reply: &Reply) -> (outcome: Result<(), Error>)
        ensures
            match outcome {
                Ok(done) => archive_outcome(name@, reply@) == Ok::<(), ErrorModel>(()),
                Err(e) => archive_outcome(name@, reply@) == Err::<(), ErrorModel>(e@),
            },
    {
        match reply {
            Reply::Failed { detail } => Err(Error::Transport { detail: detail.clone() }),
            Reply::Received(response) => {
                if is_success(response.status) {
                    Ok(())
                } else {
                    Err(Error::Remote { status: response.status, repository: Some(name.to_owned()) })
                }
            },
        }
    }
}

/// Decides what to do about one repository once the operator has answered:
/// the request that archives it if they confirmed, nothing if they declined.
pub fn archive_if_confirmed(github: &GitHub, repo: &Repository, confirmed: bool) -> (request: Option<
    Request,
>)
    ensures
        match request {
            Some(r) => confirmed && r@ == archive_request(github@.username, repo@.name),
            None => !confirmed,
        },
{
    if confirmed {
        Some(github.archive_repo_request(repo.name.as_str()))
    } else {
        None
    }
}

/// A credential that the service rejects never yields a client: an answer to
/// the identity request with a status other than success is an
/// authentication failure that carries the status, whatever the body holds.
pub proof fn lemma_rejected_credential(status: u16, body: Seq<u8>)
    requires
        !status_is_success(status),
    ensures
        identity_outcome(ReplyModel::Received { status, body }) == Err::<Seq<char>, ErrorModel>(
            ErrorModel::Authentication { status },
        ),
{
}

/// An answer to the identity request whose status is success, but whose body
/// is no document or a document without a string member `login`, is a
/// protocol failure.
pub proof fn lemma_login_required(status: u16, body: Seq<u8>)
    requires
        status_is_success(status),
        match json_document(body) {
            Some(tree) => tree.text_field("login"@) is None,
            None => true,
        },
    ensures
        identity_outcome(ReplyModel::Received { status, body }) == Err::<Seq<char>, ErrorModel>(
            ErrorModel::Protocol,
        ),
{
}

/// No response to the identity request is a transport failure, and so no
/// client either.
pub proof fn lemma_identity_needs_a_response(detail: Seq<char>)
    ensures
        identity_outcome(ReplyModel::Failed { detail }) == Err::<Seq<char>, ErrorModel>(
            ErrorModel::Transport { detail },
        ),
{
}

/// Of a listing of N repositories of which M are archived, exactly the N - M
/// others are returned, and none of them is archived.
pub proof fn lemma_listing_count(status: u16, body: Seq<u8>, all: Seq<RepositoryModel>)
    requires
        status_is_success(status),
        json_document(body) matches Some(tree) && listing_of(tree) == Some(all),
    ensures
        listing_outcome(ReplyModel::Received { status, body }) == Ok::<
            Seq<RepositoryModel>,
            ErrorModel,
        >(active(all)),
        active(all).len() == all.len() - archived(all).len(),
        forall|i: int| 0 <= i < active(all).len() ==> !(#[trigger] active(all)[i]).archived,
{
    lemma_active_count(all);
    lemma_active_all_unarchived(all);
}

/// Archiving can be repeated: where the service answers both requests for
/// one name with success, both calls succeed, and the second request is the
/// same as the first. A client is only read by its operations, so it is the
/// same before and after each of them.
pub proof fn lemma_archive_repeatable(
    username: Seq<char>,
    name: Seq<char>,
    first: ReplyModel,
    second: ReplyModel,
)
    requires
        first matches ReplyModel::Received { status, .. } && status_is_success(status),
        second matches ReplyModel::Received { status, .. } && status_is_success(status),
    ensures
        archive_outcome(name, first) == Ok::<(), ErrorModel>(()),
        archive_outcome(name, second) == archive_outcome(name, first),
{
}

/// A failure for one repository does not reach the next: where the request
/// for `x` fails and the one for `y` is answered with success, `x` is
/// reported with an error of its own and `y` is archived.
pub proof fn lemma_batch_isolation(x: Seq<char>, y: Seq<char>, reply_x: ReplyModel, reply_y: ReplyModel)
    requires
        reply_x matches ReplyModel::Received { status, .. } ==> !status_is_success(status),
        reply_y matches ReplyModel::Received { status, .. } && status_is_success(status),
    ensures
        archive_outcome(x, reply_x) is Err,
        reply_x matches ReplyModel::Received { status, .. } ==> archive_outcome(x, reply_x) == Err::<
            (),
            ErrorModel,
        >(ErrorModel::Remote { status, repository: Some(x) }),
        reply_x matches ReplyModel::Failed { detail } ==> archive_outcome(x, reply_x) == Err::<
            (),
            ErrorModel,
        >(ErrorModel::Transport { detail }),
        archive_outcome(y, reply_y) == Ok::<(), ErrorModel>(()),
{
}

} // verus!
