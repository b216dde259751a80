//! People and their local accounts, and the forms by which their rows are
//! changed field by field.

use crate::newtypes::{DbUrl, LocalUserId, PersonId};
use vstd::prelude::*;

verus! {

/// The order in which a listing shows its posts.
#[derive(Clone, Copy, PartialEq, Eq, Structural, Debug, Hash)]
pub enum SortType {
    Active,
    Hot,
    New,
    Old,
    TopDay,
    TopWeek,
    TopMonth,
    TopYear,
    TopAll,
    MostComments,
    NewComments,
    TopHour,
    TopSixHour,
    TopTwelveHour,
    TopThreeMonths,
    TopSixMonths,
    TopNineMonths,
    Controversial,
    Scaled,
}

/// Which communities a listing draws from.
#[derive(Clone, Copy, PartialEq, Eq, Structural, Debug, Hash)]
pub enum ListingType {
    All,
    Local,
    Subscribed,
    ModeratorView,
}

/// How a listing lays out its posts.
#[derive(Clone, Copy, PartialEq, Eq, Structural, Debug, Hash)]
pub enum PostListingMode {
    List,
    Card,
    SmallCard,
}

/// A person, local or known from another server.
#[derive(Clone, Debug, PartialEq, Eq)]
pub struct Person {
    pub id: PersonId,
    pub display_name: Option<String>,
    pub bio: Option<String>,
    pub avatar: Option<DbUrl>,
    pub banner: Option<DbUrl>,
    pub matrix_user_id: Option<String>,
    pub bot_account: bool,
    /// Whether this server is the person's home.
    pub local: bool,
}

/// What a [`Person`] holds, as plain values.
pub struct PersonModel {
    pub id: PersonId,
    pub display_name: Option<Seq<char>>,
    pub bio: Option<Seq<char>>,
    pub avatar: Option<Seq<char>>,
    pub banner: Option<Seq<char>>,
    pub matrix_user_id: Option<Seq<char>>,
    pub bot_account: bool,
    pub local: bool,
}

impl View for Person {
    type V = PersonModel;

    open spec fn view(&self) -> PersonModel {
        PersonModel {
            id: self.id,
            display_name: self.display_name.deep_view(),
            bio: self.bio.deep_view(),
            avatar: self.avatar.deep_view(),
            banner: self.banner.deep_view(),
            matrix_user_id: self.matrix_user_id.deep_view(),
            bot_account: self.bot_account,
            local: self.local,
        }
    }
}

/// The fields of a person row that an update may change. An outer `None`
/// leaves the field as it is; `Some(None)` clears it.
#[derive(Clone, Debug, PartialEq, Eq)]
pub struct PersonUpdateForm {
    pub display_name: Option<Option<String>>,
    pub bio: Option<Option<String>>,
    pub matrix_user_id: Option<Option<String>>,
    pub bot_account: Option<bool>,
}

/// What a [`PersonUpdateForm`] holds, as plain values.
pub struct PersonUpdateFormModel {
    pub display_name: Option<Option<Seq<char>>>,
    pub bio: Option<Option<Seq<char>>>,
    pub matrix_user_id: Option<Option<Seq<char>>>,
    pub bot_account: Option<bool>,
}

impl View for PersonUpdateForm {
    type V = PersonUpdateFormModel;

    open spec fn view(&self) -> PersonUpdateFormModel {
        PersonUpdateFormModel {
            display_name: self.display_name.deep_view(),
            bio: self.bio.deep_view(),
            matrix_user_id: self.matrix_user_id.deep_view(),
            bot_account: self.bot_account,
        }
    }
}

impl PersonUpdateFormModel {
    /// The row that an update with this form leaves, given the row before:
    /// each field that the form provides is taken from it, every other field
    /// is kept.
    pub open spec fn merged_into(self, before: PersonModel) -> PersonModel {
        PersonModel {
            display_name: match self.display_name {
                Some(v) => v,
                None => before.display_name,
            },
            bio: match self.bio {
                Some(v) => v,
                None => before.bio,
            },
            matrix_user_id: match self.matrix_user_id {
                Some(v) => v,
                None => before.matrix_user_id,
            },
            bot_account: match self.bot_account {
                Some(v) => v,
                None => before.bot_account,
            },
            ..before
        }
    }
}

impl PersonUpdateForm {
    /// Changes `person` as an update with this form changes its row.
    pub fn apply(&self, person: &mut Person)
        ensures
            final(person)@ == self@.merged_into(old(person)@),
    {
        if let Some(v) = &self.display_name {
            person.display_name = v.clone();
        }
        if let Some(v) = &self.bio {
            person.bio = v.clone();
        }
        if let Some(v) = &self.matrix_user_id {
            person.matrix_user_id = v.clone();
        }
        if let Some(v) = self.bot_account {
            person.bot_account = v;
        }
    }
}

/// The local account of a person, with the settings they chose.
#[derive(Clone, Debug, PartialEq, Eq)]
pub struct LocalUser {
    pub id: LocalUserId,
    pub person_id: PersonId,
    pub show_nsfw: bool,
    pub theme: String,
    pub default_sort_type: SortType,
    pub default_listing_type: ListingType,
    pub interface_language: String,
    pub show_avatars: bool,
    pub send_notifications_to_email: bool,
    pub show_scores: bool,
    pub show_bot_accounts: bool,
    pub show_read_posts: bool,
    pub open_links_in_new_tab: bool,
    pub blur_nsfw: bool,
    pub auto_expand: bool,
    pub infinite_scroll_enabled: bool,
    pub post_listing_mode: PostListingMode,
}

/// What a [`LocalUser`] holds, as plain values.
pub struct LocalUserModel {
    pub id: LocalUserId,
    pub person_id: PersonId,
    pub show_nsfw: bool,
    pub theme: Seq<char>,
    pub default_sort_type: SortType,
    pub default_listing_type: ListingType,
    pub interface_language: Seq<char>,
    pub show_avatars: bool,
    pub send_notifications_to_email: bool,
    pub show_scores: bool,
    pub show_bot_accounts: bool,
    pub show_read_posts: bool,
    pub open_links_in_new_tab: bool,
    pub blur_nsfw: bool,
    pub auto_expand: bool,
    pub infinite_scroll_enabled: bool,
    pub post_listing_mode: PostListingMode,
}

impl View for LocalUser {
    type V = LocalUserModel;

    open spec fn view(&self) -> LocalUserModel {
        LocalUserModel {
            id: self.id,
            person_id: self.person_id,
            show_nsfw: self.show_nsfw,
            theme: self.theme@,
            default_sort_type: self.default_sort_type,
            default_listing_type: self.default_listing_type,
            interface_language: self.interface_language@,
            show_avatars: self.show_avatars,
            send_notifications_to_email: self.send_notifications_to_email,
            show_scores: self.show_scores,
            show_bot_accounts: self.show_bot_accounts,
            show_read_posts: self.show_read_posts,
            open_links_in_new_tab: self.open_links_in_new_tab,
            blur_nsfw: self.blur_nsfw,
            auto_expand: self.auto_expand,
            infinite_scroll_enabled: self.infinite_scroll_enabled,
            post_listing_mode: self.post_listing_mode,
        }
    }
}

impl DeepView for LocalUser {
    type V = LocalUserModel;

    open spec fn deep_view(&self) -> LocalUserModel {
        self@
    }
}

/// The settings of a local account that an update may change. A field that
/// is `None` leaves the setting as it is.
#[derive(Clone, Debug, PartialEq, Eq)]
pub struct LocalUserUpdateForm {
    pub show_nsfw: Option<bool>,
    pub theme: Option<String>,
    pub default_sort_type: Option<SortType>,
    pub default_listing_type: Option<ListingType>,
    pub interface_language: Option<String>,
    pub show_avatars: Option<bool>,
    pub send_notifications_to_email: Option<bool>,
    pub show_scores: Option<bool>,
    pub show_bot_accounts: Option<bool>,
    pub show_read_posts: Option<bool>,
    pub open_links_in_new_tab: Option<bool>,
    pub blur_nsfw: Option<bool>,
    pub auto_expand: Option<bool>,
    pub infinite_scroll_enabled: Option<bool>,
    pub post_listing_mode: Option<PostListingMode>,
}

/// What a [`LocalUserUpdateForm`] holds, as plain values.
pub struct LocalUserUpdateFormModel {
    pub show_nsfw: Option<bool>,
    pub theme: Option<Seq<char>>,
    pub default_sort_type: Option<SortType>,
    pub default_listing_type: Option<ListingType>,
    pub interface_language: Option<Seq<char>>,
    pub show_avatars: Option<bool>,
    pub send_notifications_to_email: Option<bool>,
    pub show_scores: Option<bool>,
    pub show_bot_accounts: Option<bool>,
    pub show_read_posts: Option<bool>,
    pub open_links_in_new_tab: Option<bool>,
    pub blur_nsfw: Option<bool>,
    pub auto_expand: Option<bool>,
    pub infinite_scroll_enabled: Option<bool>,
    pub post_listing_mode: Option<PostListingMode>,
}

impl View for LocalUserUpdateForm {
    type V = LocalUserUpdateFormModel;

    open spec fn view(&self) -> LocalUserUpdateFormModel {
        LocalUserUpdateFormModel {
            show_nsfw: self.show_nsfw,
            theme: self.theme.deep_view(),
            default_sort_type: self.default_sort_type,
            default_listing_type: self.default_listing_type,
            interface_language: self.interface_language.deep_view(),
            show_avatars: self.show_avatars,
            send_notifications_to_email: self.send_notifications_to_email,
            show_scores: self.show_scores,
            show_bot_accounts: self.show_bot_accounts,
            show_read_posts: self.show_read_posts,
            open_links_in_new_tab: self.open_links_in_new_tab,
            blur_nsfw: self.blur_nsfw,
            auto_expand: self.auto_expand,
            infinite_scroll_enabled: self.infinite_scroll_enabled,
            post_listing_mode: self.post_listing_mode,
        }
    }
}

/// A local account together with the person it belongs to.
#[derive(Clone, Debug, PartialEq, Eq)]
pub struct LocalUserView {
    pub local_user: LocalUser,
    pub person: Person,
}

/// The value that a field has after an update: the provided one, or else the
/// one it had.
pub open spec fn provided_or<T>(provided: Option<T>, before: T) -> T {
    match provided {
        Some(v) => v,
        None => before,
    }
}

impl LocalUserUpdateFormModel {
    /// A form that provides no field.
    pub open spec fn is_empty(self) -> bool {
        &&& self.show_nsfw is None
        &&& self.theme is None
        &&& self.default_sort_type is None
        &&& self.default_listing_type is None
        &&& self.interface_language is None
        &&& self.show_avatars is None
        &&& self.send_notifications_to_email is None
        &&& self.show_scores is None
        &&& self.show_bot_accounts is None
        &&& self.show_read_posts is None
        &&& self.open_links_in_new_tab is None
        &&& self.blur_nsfw is None
        &&& self.auto_expand is None
        &&& self.infinite_scroll_enabled is None
        &&& self.post_listing_mode is None
    }

    /// The form that provides every setting of `settings`.
    pub open spec fn all_of(settings: LocalUserModel) -> LocalUserUpdateFormModel {
        LocalUserUpdateFormModel {
            show_nsfw: Some(settings.show_nsfw),
            theme: Some(settings.theme),
            default_sort_type: Some(settings.default_sort_type),
            default_listing_type: Some(settings.default_listing_type),
            interface_language: Some(settings.interface_language),
            show_avatars: Some(settings.show_avatars),
            send_notifications_to_email: Some(settings.send_notifications_to_email),
            show_scores: Some(settings.show_scores),
            show_bot_accounts: Some(settings.show_bot_accounts),
            show_read_posts: Some(settings.show_read_posts),
            open_links_in_new_tab: Some(settings.open_links_in_new_tab),
            blur_nsfw: Some(settings.blur_nsfw),
            auto_expand: Some(settings.auto_expand),
            infinite_scroll_enabled: Some(settings.infinite_scroll_enabled),
            post_listing_mode: Some(settings.post_listing_mode),
        }
    }

    /// The account that an update with this form leaves, given the account
    /// before: a merge field by field, in which a setting that the form does
    /// not provide keeps its value.
    pub open spec fn merged_into(self, before: LocalUserModel) -> LocalUserModel {
        LocalUserModel {
            id: before.id,
            person_id: before.person_id,
            show_nsfw: provided_or(self.show_nsfw, before.show_nsfw),
            theme: provided_or(self.theme, before.theme),
            default_sort_type: provided_or(self.default_sort_type, before.default_sort_type),
            default_listing_type: provided_or(
                self.default_listing_type,
                before.default_listing_type,
            ),
            interface_language: provided_or(self.interface_language, before.interface_language),
            show_avatars: provided_or(self.show_avatars, before.show_avatars),
            send_notifications_to_email: provided_or(
                self.send_notifications_to_email,
                before.send_notifications_to_email,
            ),
            show_scores: provided_or(self.show_scores, before.show_scores),
            show_bot_accounts: provided_or(self.show_bot_accounts, before.show_bot_accounts),
            show_read_posts: provided_or(self.show_read_posts, before.show_read_posts),
            open_links_in_new_tab: provided_or(
                self.open_links_in_new_tab,
                before.open_links_in_new_tab,
            ),
            blur_nsfw: provided_or(self.blur_nsfw, before.blur_nsfw),
            auto_expand: provided_or(self.auto_expand, before.auto_expand),
            infinite_scroll_enabled: provided_or(
                self.infinite_scroll_enabled,
                before.infinite_scroll_enabled,
            ),
            post_listing_mode: provided_or(self.post_listing_mode, before.post_listing_mode),
        }
    }
}

impl LocalUserUpdateForm {
    /// A form that provides no field.
    pub fn empty() -> (form: LocalUserUpdateForm)
        ensures
            form@.is_empty(),
    {
        LocalUserUpdateForm {
            show_nsfw: None,
            theme: None,
            default_sort_type: None,
            default_listing_type: None,
            interface_language: None,
            show_avatars: None,
            send_notifications_to_email: None,
            show_scores: None,
            show_bot_accounts: None,
            show_read_posts: None,
            open_links_in_new_tab: None,
            blur_nsfw: None,
            auto_expand: None,
            infinite_scroll_enabled: None,
            post_listing_mode: None,
        }
    }

    /// Changes `user` as an update with this form changes its row.
    pub fn apply(&self, user: &mut LocalUser)
        ensures
            final(user)@ == self@.merged_into(old(user)@),
    {
        user.show_nsfw = provided_or_kept(self.show_nsfw, user.show_nsfw);
        user.theme = provided_or_kept_text(&self.theme, &user.theme);
        user.default_sort_type = provided_or_kept(self.default_sort_type, user.default_sort_type);
        user.default_listing_type =
            provided_or_kept(self.default_listing_type, user.default_listing_type);
        user.interface_language =
            provided_or_kept_text(&self.interface_language, &user.interface_language);
        user.show_avatars = provided_or_kept(self.show_avatars, user.show_avatars);
        user.send_notifications_to_email =
            provided_or_kept(self.send_notifications_to_email, user.send_notifications_to_email);
        user.show_scores = provided_or_kept(self.show_scores, user.show_scores);
        user.show_bot_accounts = provided_or_kept(self.show_bot_accounts, user.show_bot_accounts);
        user.show_read_posts = provided_or_kept(self.show_read_posts, user.show_read_posts);
        user.open_links_in_new_tab =
            provided_or_kept(self.open_links_in_new_tab, user.open_links_in_new_tab);
        user.blur_nsfw = provided_or_kept(self.blur_nsfw, user.blur_nsfw);
        user.auto_expand = provided_or_kept(self.auto_expand, user.auto_expand);
        user.infinite_scroll_enabled =
            provided_or_kept(self.infinite_scroll_enabled, user.infinite_scroll_enabled);
        user.post_listing_mode = provided_or_kept(self.post_listing_mode, user.post_listing_mode);
    }
}

/// The provided value, or else the one before.
fn provided_or_kept<T: Copy>(provided: Option<T>, before: T) -> (after: T)
    ensures
        after == provided_or(provided, before),
{
    match provided {
        Some(v) => v,
        None => before,
    }
}

/// The provided text, or else the one before.
fn provided_or_kept_text(provided: &Option<String>, before: &String) -> (after: String)
    ensures
        after@ == provided_or(provided.deep_view(), before@),
{
    match provided {
        Some(v) => v.clone(),
        None => before.clone(),
    }
}

} // verus!
