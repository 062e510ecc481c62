//! Typed models for the secrets endpoints and the URL of each call.

use vstd::prelude::*;

use crate::applications::BuilderError;
use crate::strings::dec_int_str;
use crate::strings::join2;
use crate::strings::join3e;
use crate::strings::push_opt_i32;
use crate::strings::push_opt_str;
use crate::strings::views_of_pairs;

verus! {

/// A stored secret, without its value.
#[derive(Clone, Debug, PartialEq)]
pub struct Secret {
    pub id: String,
    pub name: String,
    pub created_at: String,
}

/// A secret to create or update.
#[derive(Clone, Debug, PartialEq)]
pub struct NewSecret {
    pub name: String,
    pub value: String,
}

/// One secret or several, as the upsert endpoint accepts both.
#[derive(Clone, Debug, PartialEq)]
pub enum UpsertSecret {
    Single(NewSecret),
    Multiple(Vec<NewSecret>),
}

impl UpsertSecret {
    /// An upsert of one secret.
    pub fn from_pair(name: &str, value: &str) -> (r: UpsertSecret)
        ensures
            match r {
                UpsertSecret::Single(s) => s.name@ == name@ && s.value@ == value@,
                UpsertSecret::Multiple(_) => false,
            },
    {
        UpsertSecret::Single(NewSecret { name: String::from_str(name), value: String::from_str(value) })
    }

    /// An upsert of several secrets, one per name-value pair, in order.
    pub fn from_pairs(pairs: Vec<(String, String)>) -> (r: UpsertSecret)
        ensures
            match r {
                UpsertSecret::Multiple(s) => s@.len() == pairs@.len() && forall|i: int|
                    0 <= i < s@.len() ==> #[trigger] s@[i].name == pairs@[i].0 && s@[i].value
                        == pairs@[i].1,
                UpsertSecret::Single(_) => false,
            },
    {
        let mut s: Vec<NewSecret> = Vec::new();
        let n = pairs.len();
        let mut i: usize = 0;
        while i < n
            invariant
                i <= n,
                n == pairs.len(),
                s@.len() == i,
                forall|k: int|
                    0 <= k < i ==> #[trigger] s@[k].name == pairs@[k].0 && s@[k].value
                        == pairs@[k].1,
            decreases n - i,
        {
            let name = pairs[i].0.clone();
            let value = pairs[i].1.clone();
            s.push(NewSecret { name, value });
            i = i + 1;
        }
        UpsertSecret::Multiple(s)
    }
}

/// Answer to an upsert: the stored form of what was sent.
#[derive(Clone, Debug, PartialEq)]
pub enum UpsertSecretResponse {
    Single(Secret),
    Multiple(Vec<Secret>),
}

/// One page of a secrets listing.
#[derive(Clone, Debug, PartialEq)]
pub struct SecretsList {
    pub items: Vec<Secret>,
    pub pagination: Pagination,
}

/// Cursors of a secrets listing.
#[derive(Clone, Debug, PartialEq)]
pub struct Pagination {
    pub next: Option<String>,
    pub prev: Option<String>,
    pub total: i32,
}

/// Parameters of the upsert-secrets call.
#[derive(Clone, Debug)]
pub struct UpsertSecretRequest {
    pub organization_id: String,
    pub project_id: String,
    pub secrets: UpsertSecret,
}

/// Builder for [`UpsertSecretRequest`].
#[derive(Clone, Default, Debug)]
pub struct UpsertSecretRequestBuilder {
    pub organization_id: Option<String>,
    pub project_id: Option<String>,
    pub secrets: Option<UpsertSecret>,
}

impl UpsertSecretRequest {
    /// A builder with nothing set.
    pub fn builder() -> (r: UpsertSecretRequestBuilder)
        ensures
            r.organization_id is None,
            r.project_id is None,
            r.secrets is None,
    {
        UpsertSecretRequestBuilder { organization_id: None, project_id: None, secrets: None }
    }

    /// The path of the project's secret collection.
    pub fn url_path(&self) -> (r: String)
        ensures
            r@ == "/platform/v1/organizations/"@ + self.organization_id@ + "/projects/"@
                + self.project_id@ + "/secrets"@,
    {
        join2(
            "/platform/v1/organizations/",
            &self.organization_id,
            "/projects/",
            &self.project_id,
            "/secrets",
        )
    }
}

impl UpsertSecretRequestBuilder {
    /// Set the organization.
    pub fn organization_id(self, value: String) -> (r: Self)
        ensures
            r == (UpsertSecretRequestBuilder { organization_id: Some(value), ..self }),
    {
        UpsertSecretRequestBuilder { organization_id: Some(value), ..self }
    }

    /// Set the project.
    pub fn project_id(self, value: String) -> (r: Self)
        ensures
            r == (UpsertSecretRequestBuilder { project_id: Some(value), ..self }),
    {
        UpsertSecretRequestBuilder { project_id: Some(value), ..self }
    }

    /// Set the secrets to store.
    pub fn secrets(self, value: UpsertSecret) -> (r: Self)
        ensures
            r == (UpsertSecretRequestBuilder { secrets: Some(value), ..self }),
    {
        UpsertSecretRequestBuilder { secrets: Some(value), ..self }
    }

    /// Build the request; all three fields are required.
    pub fn build(self) -> (r: Result<UpsertSecretRequest, BuilderError>)
        ensures
            r is Ok <==> (self.organization_id is Some && self.project_id is Some && self.secrets
                is Some),
            match r {
                Ok(v) => v.organization_id == self.organization_id->0 && v.project_id
                    == self.project_id->0 && v.secrets == self.secrets->0,
                Err(e) => if self.organization_id is None {
                    e.field@ == "organization_id"@
                } else if self.project_id is None {
                    e.field@ == "project_id"@
                } else {
                    e.field@ == "secrets"@
                },
            },
    {
        let UpsertSecretRequestBuilder { organization_id, project_id, secrets } = self;
        match organization_id {
            Some(organization_id) => match project_id {
                Some(project_id) => match secrets {
                    Some(secrets) => Ok(
                        UpsertSecretRequest { organization_id, project_id, secrets },
                    ),
                    None => Err(BuilderError { field: String::from_str("secrets") }),
                },
                None => Err(BuilderError { field: String::from_str("project_id") }),
            },
            None => Err(BuilderError { field: String::from_str("organization_id") }),
        }
    }
}

/// Parameters of the delete-secret call.
#[derive(Clone, Debug)]
pub struct DeleteSecretRequest {
    pub organization_id: String,
    pub project_id: String,
    pub secret_id: String,
}

/// Builder for [`DeleteSecretRequest`].
#[derive(Clone, Default, Debug)]
pub struct DeleteSecretRequestBuilder {
    pub organization_id: Option<String>,
    pub project_id: Option<String>,
    pub secret_id: Option<String>,
}

impl DeleteSecretRequest {
    /// A builder with nothing set.
    pub fn builder() -> (r: DeleteSecretRequestBuilder)
        ensures
            r.organization_id is None,
            r.project_id is None,
            r.secret_id is None,
    {
        DeleteSecretRequestBuilder { organization_id: None, project_id: None, secret_id: None }
    }

    /// The path of the addressed secret.
    pub fn url_path(&self) -> (r: String)
        ensures
            r@ == "/platform/v1/organizations/"@ + self.organization_id@ + "/projects/"@
                + self.project_id@ + "/secrets/"@ + self.secret_id@,
    {
        join3e(
            "/platform/v1/organizations/",
            &self.organization_id,
            "/projects/",
            &self.project_id,
            "/secrets/",
            &self.secret_id,
        )
    }
}

impl DeleteSecretRequestBuilder {
    /// Set the organization.
    pub fn organization_id(self, value: String) -> (r: Self)
        ensures
            r == (DeleteSecretRequestBuilder { organization_id: Some(value), ..self }),
    {
        DeleteSecretRequestBuilder { organization_id: Some(value), ..self }
    }

    /// Set the project.
    pub fn project_id(self, value: String) -> (r: Self)
        ensures
            r == (DeleteSecretRequestBuilder { project_id: Some(value), ..self }),
    {
        DeleteSecretRequestBuilder { project_id: Some(value), ..self }
    }

    /// Set the secret id.
    pub fn secret_id(self, value: String) -> (r: Self)
        ensures
            r == (DeleteSecretRequestBuilder { secret_id: Some(value), ..self }),
    {
        DeleteSecretRequestBuilder { secret_id: Some(value), ..self }
    }

    /// Build the request; all three fields are required.
    pub fn build(self) -> (r: Result<DeleteSecretRequest, BuilderError>)
        ensures
            r is Ok <==> (self.organization_id is Some && self.project_id is Some
                && self.secret_id is Some),
            match r {
                Ok(v) => v.organization_id == self.organization_id->0 && v.project_id
                    == self.project_id->0 && v.secret_id == self.secret_id->0,
                Err(e) => if self.organization_id is None {
                    e.field@ == "organization_id"@
                } else if self.project_id is None {
                    e.field@ == "project_id"@
                } else {
                    e.field@ == "secret_id"@
                },
            },
    {
        let DeleteSecretRequestBuilder { organization_id, project_id, secret_id } = self;
        match organization_id {
            Some(organization_id) => match project_id {
                Some(project_id) => match secret_id {
                    Some(secret_id) => Ok(
                        DeleteSecretRequest { organization_id, project_id, secret_id },
                    ),
                    None => Err(BuilderError { field: String::from_str("secret_id") }),
                },
                None => Err(BuilderError { field: String::from_str("project_id") }),
            },
            None => Err(BuilderError { field: String::from_str("organization_id") }),
        }
    }
}

/// Parameters of the get-secret call.
#[derive(Clone, Debug)]
pub struct GetSecretRequest {
    pub organization_id: String,
    pub project_id: String,
    pub secret_id: String,
}

/// Builder for [`GetSecretRequest`].
#[derive(Clone, Default, Debug)]
pub struct GetSecretRequestBuilder {
    pub organization_id: Option<String>,
    pub project_id: Option<String>,
    pub secret_id: Option<String>,
}

impl GetSecretRequest {
    /// A builder with nothing set.
    pub fn builder() -> (r: GetSecretRequestBuilder)
        ensures
            r.organization_id is None,
            r.project_id is None,
            r.secret_id is None,
    {
        GetSecretRequestBuilder { organization_id: None, project_id: None, secret_id: None }
    }

    /// The path of the addressed secret.
    pub fn url_path(&self) -> (r: String)
        ensures
            r@ == "/platform/v1/organizations/"@ + self.organization_id@ + "/projects/"@
                + self.project_id@ + "/secrets/"@ + self.secret_id@,
    {
        join3e(
            "/platform/v1/organizations/",
            &self.organization_id,
            "/projects/",
            &self.project_id,
            "/secrets/",
            &self.secret_id,
        )
    }
}

impl GetSecretRequestBuilder {
    /// Set the organization.
    pub fn organization_id(self, value: String) -> (r: Self)
        ensures
            r == (GetSecretRequestBuilder { organization_id: Some(value), ..self }),
    {
        GetSecretRequestBuilder { organization_id: Some(value), ..self }
    }

    /// Set the project.
    pub fn project_id(self, value: String) -> (r: Self)
        ensures
            r == (GetSecretRequestBuilder { project_id: Some(value), ..self }),
    {
        GetSecretRequestBuilder { project_id: Some(value), ..self }
    }

    /// Set the secret id.
    pub fn secret_id(self, value: String) -> (r: Self)
        ensures
            r == (GetSecretRequestBuilder { secret_id: Some(value), ..self }),
    {
        GetSecretRequestBuilder { secret_id: Some(value), ..self }
    }

    /// Build the request; all three fields are required.
    pub fn build(self) -> (r: Result<GetSecretRequest, BuilderError>)
        ensures
            r is Ok <==> (self.organization_id is Some && self.project_id is Some
                && self.secret_id is Some),
            match r {
                Ok(v) => v.organization_id == self.organization_id->0 && v.project_id
                    == self.project_id->0 && v.secret_id == self.secret_id->0,
                Err(e) => if self.organization_id is None {
                    e.field@ == "organization_id"@
                } else if self.project_id is None {
                    e.field@ == "project_id"@
                } else {
                    e.field@ == "secret_id"@
                },
            },
    {
        let GetSecretRequestBuilder { organization_id, project_id, secret_id } = self;
        match organization_id {
            Some(organization_id) => match project_id {
                Some(project_id) => match secret_id {
                    Some(secret_id) => Ok(
                        GetSecretRequest { organization_id, project_id, secret_id },
                    ),
                    None => Err(BuilderError { field: String::from_str("secret_id") }),
                },
                None => Err(BuilderError { field: String::from_str("project_id") }),
            },
            None => Err(BuilderError { field: String::from_str("organization_id") }),
        }
    }
}

/// Parameters of the list-secrets call.
#[derive(Clone, Debug)]
pub struct ListSecretsRequest {
    pub organization_id: String,
    pub project_id: String,
    pub next: Option<String>,
    pub prev: Option<String>,
    pub page_size: Option<i32>,
}

/// Builder for [`ListSecretsRequest`].
#[derive(Clone, Default, Debug)]
pub struct ListSecretsRequestBuilder {
    pub organization_id: Option<String>,
    pub project_id: Option<String>,
    pub next: Option<String>,
    pub prev: Option<String>,
    pub page_size: Option<i32>,
}

impl ListSecretsRequest {
    /// A builder with nothing set.
    pub fn builder() -> (r: ListSecretsRequestBuilder)
        ensures
            r.organization_id is None,
            r.project_id is None,
            r.next is None,
            r.prev is None,
            r.page_size is None,
    {
        ListSecretsRequestBuilder {
            organization_id: None,
            project_id: None,
            next: None,
            prev: None,
            page_size: None,
        }
    }

    /// The path of the project's secret collection.
    pub fn url_path(&self) -> (r: String)
        ensures
            r@ == "/platform/v1/organizations/"@ + self.organization_id@ + "/projects/"@
                + self.project_id@ + "/secrets"@,
    {
        join2(
            "/platform/v1/organizations/",
            &self.organization_id,
            "/projects/",
            &self.project_id,
            "/secrets",
        )
    }

    /// The query parameters the call sends, in order: `next`, `prev`,
    /// `pageSize`, each present exactly when set.
    pub open spec fn spec_query(&self) -> Seq<(Seq<char>, Seq<char>)> {
        let q0 = Seq::<(Seq<char>, Seq<char>)>::empty();
        let q1 = match self.next {
            Some(s) => q0.push(("next"@, s@)),
            None => q0,
        };
        let q2 = match self.prev {
            Some(s) => q1.push(("prev"@, s@)),
            None => q1,
        };
        match self.page_size {
            Some(n) => q2.push(("pageSize"@, dec_int_str(n as int))),
            None => q2,
        }
    }

    /// Render the query parameters.
    pub fn query(&self) -> (r: Vec<(String, String)>)
        ensures
            views_of_pairs(r@) == self.spec_query(),
    {
        let mut r: Vec<(String, String)> = Vec::new();
        proof {
            assert(views_of_pairs(r@) =~= Seq::<(Seq<char>, Seq<char>)>::empty());
        }
        push_opt_str(&mut r, "next", &self.next);
        push_opt_str(&mut r, "prev", &self.prev);
        push_opt_i32(&mut r, "pageSize", &self.page_size);
        r
    }
}

impl ListSecretsRequestBuilder {
    /// Set the organization.
    pub fn organization_id(self, value: String) -> (r: Self)
        ensures
            r == (ListSecretsRequestBuilder { organization_id: Some(value), ..self }),
    {
        ListSecretsRequestBuilder { organization_id: Some(value), ..self }
    }

    /// Set the project.
    pub fn project_id(self, value: String) -> (r: Self)
        ensures
            r == (ListSecretsRequestBuilder { project_id: Some(value), ..self }),
    {
        ListSecretsRequestBuilder { project_id: Some(value), ..self }
    }

    /// Continue forward from a cursor.
    pub fn next(self, value: String) -> (r: Self)
        ensures
            r == (ListSecretsRequestBuilder { next: Some(value), ..self }),
    {
        ListSecretsRequestBuilder { next: Some(value), ..self }
    }

    /// Continue backward from a cursor.
    pub fn prev(self, value: String) -> (r: Self)
        ensures
            r == (ListSecretsRequestBuilder { prev: Some(value), ..self }),
    {
        ListSecretsRequestBuilder { prev: Some(value), ..self }
    }

    /// Set the page size.
    pub fn page_size(self, value: i32) -> (r: Self)
        ensures
            r == (ListSecretsRequestBuilder { page_size: Some(value), ..self }),
    {
        ListSecretsRequestBuilder { page_size: Some(value), ..self }
    }

    /// Build the request; organization and project are required.
    pub fn build(self) -> (r: Result<ListSecretsRequest, BuilderError>)
        ensures
            r is Ok <==> (self.organization_id is Some && self.project_id is Some),
            match r {
                Ok(v) => v.organization_id == self.organization_id->0 && v.project_id
                    == self.project_id->0 && v.next == self.next && v.prev == self.prev
                    && v.page_size == self.page_size,
                Err(e) => if self.organization_id is None {
                    e.field@ == "organization_id"@
                } else {
                    e.field@ == "project_id"@
                },
            },
    {
        let ListSecretsRequestBuilder { organization_id, project_id, next, prev, page_size } =
            self;
        match organization_id {
            Some(organization_id) => match project_id {
                Some(project_id) => Ok(
                    ListSecretsRequest { organization_id, project_id, next, prev, page_size },
                ),
                None => Err(BuilderError { field: String::from_str("project_id") }),
            },
            None => Err(BuilderError { field: String::from_str("organization_id") }),
        }
    }
}

} // verus!
