//! The portable backup of a person's settings and relationships: what it
//! holds, how it is exported from local rows, and what an import of it sets
//! in motion.

use crate::error::Error;
use crate::importer::BackupImporter;
use crate::newtypes::{DbUrl, LocalUserId, PersonId};
use crate::person::{
    LocalUser, LocalUserModel, LocalUserUpdateForm, LocalUserUpdateFormModel, LocalUserView,
    PersonModel, PersonUpdateForm, PersonUpdateFormModel,
};
use vstd::prelude::*;

verus! {

/// The number of follows and blocks that one import may hold, so that a
/// single import cannot overload the server. A larger backup is imported in
/// parts.
pub const MAX_URL_IMPORT_COUNT: usize = 1000;

/// Backup of user data. The fields never change their names or meaning, so
/// that a backup stays readable for as long as it is kept; every field may be
/// missing, so that a partial backup can be imported.
///
/// Each of the four collections holds addresses; the kind of object that an
/// address names is the one that its collection holds.
#[derive(Clone, Debug, PartialEq, Eq)]
pub struct UserBackup {
    pub display_name: Option<String>,
    pub bio: Option<String>,
    pub avatar: Option<DbUrl>,
    pub banner: Option<DbUrl>,
    pub matrix_id: Option<String>,
    pub bot_account: Option<bool>,
    pub settings: Option<LocalUser>,
    pub followed_communities: Vec<DbUrl>,
    pub blocked_communities: Vec<DbUrl>,
    pub blocked_users: Vec<DbUrl>,
    pub saved_posts: Vec<DbUrl>,
}

/// What a [`UserBackup`] holds, as plain values.
pub struct UserBackupModel {
    pub display_name: Option<Seq<char>>,
    pub bio: Option<Seq<char>>,
    pub avatar: Option<Seq<char>>,
    pub banner: Option<Seq<char>>,
    pub matrix_id: Option<Seq<char>>,
    pub bot_account: Option<bool>,
    pub settings: Option<LocalUserModel>,
    pub followed_communities: Seq<Seq<char>>,
    pub blocked_communities: Seq<Seq<char>>,
    pub blocked_users: Seq<Seq<char>>,
    pub saved_posts: Seq<Seq<char>>,
}

impl View for UserBackup {
    type V = UserBackupModel;

    open spec fn view(&self) -> UserBackupModel {
        UserBackupModel {
            display_name: self.display_name.deep_view(),
            bio: self.bio.deep_view(),
            avatar: self.avatar.deep_view(),
            banner: self.banner.deep_view(),
            matrix_id: self.matrix_id.deep_view(),
            bot_account: self.bot_account,
            settings: self.settings.deep_view(),
            followed_communities: self.followed_communities.deep_view(),
            blocked_communities: self.blocked_communities.deep_view(),
            blocked_users: self.blocked_users.deep_view(),
            saved_posts: self.saved_posts.deep_view(),
        }
    }
}

/// The addresses of the objects that a person is related to, one list for
/// each kind of relationship that a backup holds: what the table of
/// relationships gives for the person.
#[derive(Clone, Debug, PartialEq, Eq)]
pub struct UserBackupLists {
    pub followed_communities: Vec<DbUrl>,
    pub blocked_communities: Vec<DbUrl>,
    pub blocked_users: Vec<DbUrl>,
    pub saved_posts: Vec<DbUrl>,
}

impl UserBackupModel {
    /// The backup of a person with the given row, account and lists.
    pub open spec fn of(
        person: PersonModel,
        local_user: LocalUserModel,
        followed_communities: Seq<Seq<char>>,
        blocked_communities: Seq<Seq<char>>,
        blocked_users: Seq<Seq<char>>,
        saved_posts: Seq<Seq<char>>,
    ) -> UserBackupModel {
        UserBackupModel {
            display_name: person.display_name,
            bio: person.bio,
            avatar: person.avatar,
            banner: person.banner,
            matrix_id: person.matrix_user_id,
            bot_account: Some(person.bot_account),
            settings: Some(local_user),
            followed_communities,
            blocked_communities,
            blocked_users,
            saved_posts,
        }
    }

    /// The number of references that count against the limit of one import:
    /// the followed communities, the blocked communities and the blocked
    /// users. Saved posts do not count.
    pub open spec fn url_count(self) -> nat {
        self.followed_communities.len() + self.blocked_communities.len()
            + self.blocked_users.len()
    }

    /// Whether the backup is too large for one import.
    pub open spec fn too_large(self) -> bool {
        self.url_count() > MAX_URL_IMPORT_COUNT
    }

    /// The update of the person's row that an import makes, where
    /// `display_name` and `bio` are the backup's two free texts after
    /// sanitising. All four fields are set, so that a field which the backup
    /// lacks is cleared; only the bot flag is left alone when it is missing.
    pub open spec fn person_form(
        self,
        display_name: Option<Seq<char>>,
        bio: Option<Seq<char>>,
    ) -> PersonUpdateFormModel {
        PersonUpdateFormModel {
            display_name: Some(display_name),
            bio: Some(bio),
            matrix_user_id: Some(self.matrix_id),
            bot_account: self.bot_account,
        }
    }

    /// The update of the account's settings that an import makes: every
    /// setting of the backup, or none where the backup has no settings.
    pub open spec fn local_user_form(self) -> LocalUserUpdateFormModel {
        match self.settings {
            Some(settings) => LocalUserUpdateFormModel::all_of(settings),
            None => LocalUserUpdateFormModel {
                show_nsfw: None,
                theme: None,
                default_sort_type: None,
                default_listing_type: None,
                interface_language: None,
                show_avatars: None,
                send_notifications_to_email: None,
                show_scores: None,
                show_bot_accounts: None,
                show_read_posts: None,
                open_links_in_new_tab: None,
                blur_nsfw: None,
                auto_expand: None,
                infinite_scroll_enabled: None,
                post_listing_mode: None,
            },
        }
    }
}

/// Puts together the backup of a person from their row, their account and
/// the addresses of what they follow, block and saved. Nothing is changed
/// and nothing is fetched.
pub fn export_user_backup(local_user_view: LocalUserView, lists: UserBackupLists) -> (backup:
    UserBackup)
    ensures
        backup@ == UserBackupModel::of(
            local_user_view.person@,
            local_user_view.local_user@,
            lists.followed_communities.deep_view(),
            lists.blocked_communities.deep_view(),
            lists.blocked_users.deep_view(),
            lists.saved_posts.deep_view(),
        ),
{
    let person = local_user_view.person;
    UserBackup {
        display_name: person.display_name,
        bio: person.bio,
        avatar: person.avatar,
        banner: person.banner,
        matrix_id: person.matrix_user_id,
        bot_account: Some(person.bot_account),
        settings: Some(local_user_view.local_user),
        followed_communities: lists.followed_communities,
        blocked_communities: lists.blocked_communities,
        blocked_users: lists.blocked_users,
        saved_posts: lists.saved_posts,
    }
}

impl UserBackup {
    /// The update of the person's row that an import of this backup makes.
    /// `display_name` and `bio` are the backup's display name and biography
    /// as the markup sanitiser returned them.
    pub fn person_form(&self, display_name: Option<String>, bio: Option<String>) -> (form:
        PersonUpdateForm)
        ensures
            form@ == self@.person_form(display_name.deep_view(), bio.deep_view()),
    {
        PersonUpdateForm {
            display_name: Some(display_name),
            bio: Some(bio),
            matrix_user_id: Some(self.matrix_id.clone()),
            bot_account: self.bot_account,
        }
    }

    /// The update of the account's settings that an import of this backup
    /// makes.
    pub fn local_user_form(&self) -> (form: LocalUserUpdateForm)
        ensures
            form@ == self@.local_user_form(),
    {
        match &self.settings {
            Some(s) => LocalUserUpdateForm {
                show_nsfw: Some(s.show_nsfw),
                theme: Some(s.theme.clone()),
                default_sort_type: Some(s.default_sort_type),
                default_listing_type: Some(s.default_listing_type),
                interface_language: Some(s.interface_language.clone()),
                show_avatars: Some(s.show_avatars),
                send_notifications_to_email: Some(s.send_notifications_to_email),
                show_scores: Some(s.show_scores),
                show_bot_accounts: Some(s.show_bot_accounts),
                show_read_posts: Some(s.show_read_posts),
                open_links_in_new_tab: Some(s.open_links_in_new_tab),
                blur_nsfw: Some(s.blur_nsfw),
                auto_expand: Some(s.auto_expand),
                infinite_scroll_enabled: Some(s.infinite_scroll_enabled),
                post_listing_mode: Some(s.post_listing_mode),
            },
            None => LocalUserUpdateForm::empty(),
        }
    }

    /// Fails with [`Error::UserBackupTooLarge`] exactly when the backup's
    /// followed communities, blocked communities and blocked users together
    /// are more than [`MAX_URL_IMPORT_COUNT`].
    pub fn check_size(&self) -> (checked: Result<(), Error>)
        ensures
            checked == if self@.too_large() {
                Err::<(), Error>(Error::UserBackupTooLarge)
            } else {
                Ok::<(), Error>(())
            },
    {
        let url_count = self.followed_communities.len() as u128
            + self.blocked_communities.len() as u128 + self.blocked_users.len() as u128;
        if url_count > MAX_URL_IMPORT_COUNT as u128 {
            Err(Error::UserBackupTooLarge)
        } else {
            Ok(())
        }
    }
}

/// What an import does before it answers the request, in this order: the
/// person's row is updated, then the account's settings, and then either the
/// background operation is started or the import is refused. A refusal
/// leaves the two updates in place.
#[derive(Debug)]
pub struct ImportPlan {
    /// The row to update.
    pub person_id: PersonId,
    pub person_form: PersonUpdateForm,
    /// The account to update.
    pub local_user_id: LocalUserId,
    pub local_user_form: LocalUserUpdateForm,
    /// The operation to hand to the background, not yet started; or the
    /// reason why no relationship is imported.
    pub background: Result<BackupImporter, Error>,
}

/// Plans the import of `data` for the person of `local_user_view`.
/// `display_name` and `bio` are the backup's display name and biography as
/// the markup sanitiser returned them.
///
/// The two updates are planned whatever the backup's size. The background
/// operation is planned exactly when the backup is not too large; otherwise
/// the plan carries [`Error::UserBackupTooLarge`] in its place, and with no
/// operation there is no relationship that the import could touch.
pub fn import_user_backup(
    data: UserBackup,
    local_user_view: &LocalUserView,
    display_name: Option<String>,
    bio: Option<String>,
) -> (plan: ImportPlan)
    ensures
        plan.person_id == local_user_view.person.id,
        plan.person_form@ == data@.person_form(display_name.deep_view(), bio.deep_view()),
        plan.local_user_id == local_user_view.local_user.id,
        plan.local_user_form@ == data@.local_user_form(),
        data@.too_large() ==> plan.background == Err::<BackupImporter, Error>(
            Error::UserBackupTooLarge,
        ),
        !data@.too_large() ==> plan.background is Ok && plan.background->Ok_0.wf()
            && plan.background->Ok_0@ == crate::importer::ImporterModel::fresh(
            local_user_view.person.id,
            data@.followed_communities,
            data@.blocked_communities,
            data@.blocked_users,
            data@.saved_posts,
        ),
{
    let person_form = data.person_form(display_name, bio);
    let local_user_form = data.local_user_form();
    let background = match data.check_size() {
        Err(e) => Err(e),
        Ok(()) => Ok(
            BackupImporter::new(
                local_user_view.person.id,
                data.followed_communities,
                data.blocked_communities,
                data.blocked_users,
                data.saved_posts,
            ),
        ),
    };
    ImportPlan {
        person_id: local_user_view.person.id,
        person_form,
        local_user_id: local_user_view.local_user.id,
        local_user_form,
        background,
    }
}

} // verus!
