//! Rows that keep track of images: those uploaded here, and those that are
//! only linked.

use crate::newtypes::{DbUrl, LocalImageId, LocalUserId, Timestamp};
use vstd::prelude::*;

verus! {

/// An image that was uploaded to this server.
#[derive(PartialEq, Eq, Debug)]
pub struct LocalImage {
    pub id: LocalImageId,
    pub local_user_id: LocalUserId,
    pub pictrs_alias: String,
    pub pictrs_delete_token: String,
    pub published: Timestamp,
}

impl Clone for LocalImage {
    fn clone(&self) -> (copy: LocalImage)
        ensures
            copy == *self,
    {
        LocalImage {
            id: self.id,
            local_user_id: self.local_user_id,
            pictrs_alias: self.pictrs_alias.clone(),
            pictrs_delete_token: self.pictrs_delete_token.clone(),
            published: self.published,
        }
    }
}

/// What is needed to add a [`LocalImage`].
#[derive(Debug, Clone, PartialEq, Eq)]
pub struct LocalImageForm {
    pub local_user_id: LocalUserId,
    pub pictrs_alias: String,
    pub pictrs_delete_token: String,
}

/// A [`LocalImageForm`] in the making. A field that is not set yet has the
/// type `()`; the form can be built once all three are set, in any order.
pub struct LocalImageFormBuilder<U, A, T> {
    local_user_id: U,
    pictrs_alias: A,
    pictrs_delete_token: T,
}

impl LocalImageForm {
    /// A builder with no field set.
    pub fn builder() -> LocalImageFormBuilder<(), (), ()> {
        LocalImageFormBuilder { local_user_id: (), pictrs_alias: (), pictrs_delete_token: () }
    }
}

impl<U, A, T> LocalImageFormBuilder<U, A, T> {
    /// The user who uploaded the image, once set.
    pub closed spec fn user(self) -> U {
        self.local_user_id
    }

    /// The alias of the image, once set.
    pub closed spec fn alias(self) -> A {
        self.pictrs_alias
    }

    /// The token that deletes the image, once set.
    pub closed spec fn token(self) -> T {
        self.pictrs_delete_token
    }
}

impl<A, T> LocalImageFormBuilder<(), A, T> {
    /// Sets the user who uploaded the image.
    pub fn local_user_id(self, local_user_id: LocalUserId) -> (next: LocalImageFormBuilder<
        LocalUserId,
        A,
        T,
    >)
        ensures
            next.user() == local_user_id,
            next.alias() == self.alias(),
            next.token() == self.token(),
    {
        LocalImageFormBuilder {
            local_user_id,
            pictrs_alias: self.pictrs_alias,
            pictrs_delete_token: self.pictrs_delete_token,
        }
    }
}

impl<U, T> LocalImageFormBuilder<U, (), T> {
    /// Sets the alias under which the image is stored.
    pub fn pictrs_alias(self, pictrs_alias: String) -> (next: LocalImageFormBuilder<U, String, T>)
        ensures
            next.user() == self.user(),
            next.alias() == pictrs_alias,
            next.token() == self.token(),
    {
        LocalImageFormBuilder {
            local_user_id: self.local_user_id,
            pictrs_alias,
            pictrs_delete_token: self.pictrs_delete_token,
        }
    }
}

impl<U, A> LocalImageFormBuilder<U, A, ()> {
    /// Sets the token that deletes the image.
    pub fn pictrs_delete_token(self, pictrs_delete_token: String) -> (next: LocalImageFormBuilder<
        U,
        A,
        String,
    >)
        ensures
            next.user() == self.user(),
            next.alias() == self.alias(),
            next.token() == pictrs_delete_token,
    {
        LocalImageFormBuilder {
            local_user_id: self.local_user_id,
            pictrs_alias: self.pictrs_alias,
            pictrs_delete_token,
        }
    }
}

impl LocalImageFormBuilder<LocalUserId, String, String> {
    /// The form with the three fields as they were set.
    pub fn build(self) -> (form: LocalImageForm)
        ensures
            form.local_user_id == self.user(),
            form.pictrs_alias == self.alias(),
            form.pictrs_delete_token == self.token(),
    {
        LocalImageForm {
            local_user_id: self.local_user_id,
            pictrs_alias: self.pictrs_alias,
            pictrs_delete_token: self.pictrs_delete_token,
        }
    }
}

/// An image on another server that a post or a profile links to.
#[derive(PartialEq, Eq, Debug)]
pub struct RemoteImage {
    pub id: i32,
    pub link: DbUrl,
    pub published: Timestamp,
}

impl Clone for RemoteImage {
    fn clone(&self) -> (copy: RemoteImage)
        ensures
            copy == *self,
    {
        RemoteImage { id: self.id, link: self.link.clone(), published: self.published }
    }
}

/// What is needed to add a [`RemoteImage`].
#[derive(Debug, Clone, PartialEq, Eq)]
pub struct RemoteImageForm {
    pub link: DbUrl,
}

/// A [`RemoteImageForm`] in the making. The link has the type `()` until it
/// is set.
pub struct RemoteImageFormBuilder<L> {
    link: L,
}

impl RemoteImageForm {
    /// A builder with no field set.
    pub fn builder() -> RemoteImageFormBuilder<()> {
        RemoteImageFormBuilder { link: () }
    }
}

impl RemoteImageFormBuilder<()> {
    /// Sets the address of the image.
    pub fn link(self, link: DbUrl) -> (next: RemoteImageFormBuilder<DbUrl>)
        ensures
            next.address() == link,
    {
        RemoteImageFormBuilder { link }
    }
}

impl RemoteImageFormBuilder<DbUrl> {
    /// The address of the image.
    pub closed spec fn address(self) -> DbUrl {
        self.link
    }

    /// The form with the address as it was set.
    pub fn build(self) -> (form: RemoteImageForm)
        ensures
            form.link == self.address(),
    {
        RemoteImageForm { link: self.link }
    }
}

} // verus!
