use federated_actions::backup::{
    export_user_backup, import_user_backup, UserBackup, UserBackupLists, MAX_URL_IMPORT_COUNT,
};
use federated_actions::error::Error;
use federated_actions::importer::{
    BackupImporter, Collection, ImportAction, ImportEvent, ImportStatus, Task,
};
use federated_actions::newtypes::{DbUrl, LocalUserId, PersonId};
use federated_actions::person::{
    ListingType, LocalUser, LocalUserUpdateForm, LocalUserView, Person, PostListingMode, SortType,
};
use federated_actions::relationship::{GlobalObjectRef, LocalRelationship, ObjectKind, RelationKind};
use std::collections::VecDeque;

/// An object as the server knows it.
#[derive(Clone, Debug)]
struct Known {
    kind: ObjectKind,
    address: String,
    id: i32,
}

/// The storage, the resolver and the sanitiser of a server, in memory.
struct Server {
    /// Objects with a local row.
    local: Vec<Known>,
    /// Objects on other servers that a fetch can reach.
    remote: Vec<Known>,
    /// The relationships, with the pending flag of each.
    table: Vec<(LocalRelationship, bool)>,
    /// The references that were fetched, in order.
    fetched: Vec<GlobalObjectRef>,
    /// The references that were looked up locally, in order.
    looked_up: Vec<GlobalObjectRef>,
    next_person: i32,
}

impl Server {
    fn new() -> Server {
        Server {
            local: vec![],
            remote: vec![],
            table: vec![],
            fetched: vec![],
            looked_up: vec![],
            next_person: 1,
        }
    }

    fn add_local(&mut self, kind: ObjectKind, address: &str, id: i32) {
        self.local.push(Known { kind, address: address.to_string(), id });
    }

    fn add_remote(&mut self, kind: ObjectKind, address: &str, id: i32) {
        self.remote.push(Known { kind, address: address.to_string(), id });
    }

    fn find_local(&self, reference: &GlobalObjectRef) -> Option<i32> {
        self.local
            .iter()
            .find(|k| k.kind == reference.kind && k.address == reference.id.as_str())
            .map(|k| k.id)
    }

    fn lookup(&mut self, reference: GlobalObjectRef) -> Option<i32> {
        let found = self.find_local(&reference);
        self.looked_up.push(reference);
        found
    }

    fn fetch(&mut self, reference: GlobalObjectRef) -> Result<i32, Error> {
        let mut found = self.find_local(&reference);
        if found.is_none() {
            let at = self
                .remote
                .iter()
                .position(|k| k.kind == reference.kind && k.address == reference.id.as_str());
            if let Some(at) = at {
                let known = self.remote[at].clone();
                found = Some(known.id);
                self.local.push(known);
            }
        }
        self.fetched.push(reference);
        found.ok_or(Error::CouldntFetchObject)
    }

    fn assert_row(&mut self, row: LocalRelationship, pending: bool) {
        if !self.table.iter().any(|(r, _)| *r == row) {
            self.table.push((row, pending));
        }
    }

    fn address_of(&self, kind: ObjectKind, id: i32) -> DbUrl {
        let known = self.local.iter().find(|k| k.kind == kind && k.id == id).unwrap();
        DbUrl::from_str(&known.address)
    }

    fn lists_of(&self, subject: PersonId) -> UserBackupLists {
        let of = |kind: RelationKind| -> Vec<DbUrl> {
            self.table
                .iter()
                .filter(|(r, _)| r.subject == subject && r.kind == kind)
                .map(|(r, _)| self.address_of(kind.object_kind(), r.object))
                .collect()
        };
        UserBackupLists {
            followed_communities: of(RelationKind::Follow),
            blocked_communities: of(RelationKind::BlockCommunity),
            blocked_users: of(RelationKind::BlockPerson),
            saved_posts: of(RelationKind::SavePost),
        }
    }

    fn rows_of(&self, subject: PersonId) -> Vec<(LocalRelationship, bool)> {
        self.table.iter().filter(|(r, _)| r.subject == subject).cloned().collect()
    }

    fn create_user(&mut self, name: &str, bio: Option<String>) -> LocalUserView {
        let id = self.next_person;
        self.next_person += 1;
        LocalUserView {
            person: Person {
                id: PersonId(id),
                display_name: Some(name.to_string()),
                bio,
                avatar: None,
                banner: None,
                matrix_user_id: None,
                bot_account: false,
                local: true,
            },
            local_user: LocalUser {
                id: LocalUserId(id + 100),
                person_id: PersonId(id),
                show_nsfw: false,
                theme: "browser".to_string(),
                default_sort_type: SortType::Active,
                default_listing_type: ListingType::Local,
                interface_language: "browser".to_string(),
                show_avatars: true,
                send_notifications_to_email: false,
                show_scores: true,
                show_bot_accounts: true,
                show_read_posts: true,
                open_links_in_new_tab: false,
                blur_nsfw: true,
                auto_expand: false,
                infinite_scroll_enabled: false,
                post_listing_mode: PostListingMode::List,
            },
        }
    }

    /// Runs the background operation to its end.
    fn run(&mut self, importer: &mut BackupImporter) -> ImportStatus {
        assert_eq!(importer.status(), ImportStatus::Pending);
        let mut queue: VecDeque<ImportAction> = importer.start().into();
        while let Some(action) = queue.pop_front() {
            let event = match action {
                ImportAction::Fetch(task) => {
                    match self.fetch(importer.reference(task).unwrap()) {
                        Ok(id) => ImportEvent::Fetched(task, id),
                        Err(e) => ImportEvent::FetchFailed(task, e),
                    }
                }
                ImportAction::LookUpLocally(task) => {
                    match self.lookup(importer.reference(task).unwrap()) {
                        Some(id) => ImportEvent::FoundLocally(task, id),
                        None => ImportEvent::UnknownLocally(task),
                    }
                }
                ImportAction::Write { task, row, pending } => {
                    self.assert_row(row, pending);
                    ImportEvent::Written(task)
                }
            };
            if let Some(next) = importer.step(event) {
                queue.push_back(next);
            }
        }
        importer.status()
    }
}

/// Stands for the markup sanitiser: these texts hold no markup.
fn sanitized(text: &Option<String>) -> Option<String> {
    text.clone()
}

fn empty_backup() -> UserBackup {
    UserBackup {
        display_name: None,
        bio: None,
        avatar: None,
        banner: None,
        matrix_id: None,
        bot_account: None,
        settings: None,
        followed_communities: vec![],
        blocked_communities: vec![],
        blocked_users: vec![],
        saved_posts: vec![],
    }
}

#[test]
fn test_user_backup() {
    let mut server = Server::new();
    let export_user = server.create_user("hanna", Some("my bio".to_string()));
    server.add_local(ObjectKind::Community, "http://example.com/c/testcom", 100);
    server.assert_row(
        LocalRelationship {
            subject: export_user.person.id,
            object: 100,
            kind: RelationKind::Follow,
        },
        false,
    );

    let lists = server.lists_of(export_user.person.id);
    let backup = export_user_backup(export_user.clone(), lists);

    let import_user = server.create_user("charles", None);
    let plan = import_user_backup(
        backup.clone(),
        &import_user,
        sanitized(&backup.display_name),
        sanitized(&backup.bio),
    );
    let mut import_user_updated = import_user.clone();
    assert_eq!(plan.person_id, import_user.person.id);
    assert_eq!(plan.local_user_id, import_user.local_user.id);
    plan.person_form.apply(&mut import_user_updated.person);
    plan.local_user_form.apply(&mut import_user_updated.local_user);
    let mut importer = plan.background.unwrap();
    assert_eq!(server.run(&mut importer), ImportStatus::Completed);

    assert_eq!(export_user.person.display_name, import_user_updated.person.display_name);
    assert_eq!(export_user.person.bio, import_user_updated.person.bio);

    let follows: Vec<(LocalRelationship, bool)> = server
        .rows_of(import_user.person.id)
        .into_iter()
        .filter(|(r, _)| r.kind == RelationKind::Follow)
        .collect();
    assert_eq!(follows.len(), 1);
    assert_eq!(
        server.address_of(ObjectKind::Community, follows[0].0.object).as_str(),
        "http://example.com/c/testcom"
    );
    assert_eq!(follows[0].0.object, 100);
}

#[test]
fn backup_over_the_limit_is_refused_before_any_relationship_is_touched() {
    let mut server = Server::new();
    let export_user = server.create_user("hanna", Some("my bio".to_string()));
    let lists = server.lists_of(export_user.person.id);
    let mut backup = export_user_backup(export_user.clone(), lists);
    for _ in 0..501 {
        backup.followed_communities.push(DbUrl::from_str("http://example.com"));
        backup.blocked_communities.push(DbUrl::from_str("http://example2.com"));
    }
    let import_user = server.create_user("charles", None);
    let plan = import_user_backup(backup, &import_user, Some("hanna".to_string()), None);
    assert_eq!(plan.background.err().unwrap(), Error::UserBackupTooLarge);
    assert!(server.table.is_empty());
    assert!(server.fetched.is_empty());
    // The two updates are planned all the same.
    assert_eq!(plan.person_form.display_name, Some(Some("hanna".to_string())));
    assert_eq!(plan.local_user_form.theme, Some("browser".to_string()));
}

#[test]
fn two_hundred_references_are_within_the_limit() {
    let mut backup = empty_backup();
    for _ in 0..101 {
        backup.followed_communities.push(DbUrl::from_str("http://example.com"));
        backup.blocked_communities.push(DbUrl::from_str("http://example2.com"));
    }
    assert_eq!(backup.check_size(), Ok(()));
}

#[test]
fn limit_counts_follows_and_blocks_but_not_saved_posts() {
    assert_eq!(MAX_URL_IMPORT_COUNT, 1000);
    let mut backup = empty_backup();
    for i in 0..1000 {
        let url = DbUrl::from_str("http://example.com/x");
        match i % 3 {
            0 => backup.followed_communities.push(url),
            1 => backup.blocked_communities.push(url),
            _ => backup.blocked_users.push(url),
        }
    }
    for _ in 0..5000 {
        backup.saved_posts.push(DbUrl::from_str("http://example.com/post/1"));
    }
    assert_eq!(backup.check_size(), Ok(()));
    backup.blocked_users.push(DbUrl::from_str("http://example.com/u/one_more"));
    assert_eq!(backup.check_size(), Err(Error::UserBackupTooLarge));
    let mut only_posts = empty_backup();
    for _ in 0..1001 {
        only_posts.saved_posts.push(DbUrl::from_str("http://example.com/post/1"));
    }
    assert_eq!(only_posts.check_size(), Ok(()));
}

#[test]
fn export_copies_the_profile_the_settings_and_the_lists() {
    let mut server = Server::new();
    let mut user = server.create_user("hanna", Some("my bio".to_string()));
    user.person.avatar = Some(DbUrl::from_str("http://example.com/avatar.png"));
    user.person.banner = Some(DbUrl::from_str("http://example.com/banner.png"));
    user.person.matrix_user_id = Some("@hanna:example.com".to_string());
    user.person.bot_account = true;
    user.local_user.theme = "darkly".to_string();
    let lists = UserBackupLists {
        followed_communities: vec![DbUrl::from_str("http://a/c/1"), DbUrl::from_str("http://a/c/2")],
        blocked_communities: vec![DbUrl::from_str("http://b/c/3")],
        blocked_users: vec![DbUrl::from_str("http://b/u/4")],
        saved_posts: vec![DbUrl::from_str("http://c/post/5")],
    };
    let backup = export_user_backup(user.clone(), lists.clone());
    assert_eq!(
        backup,
        UserBackup {
            display_name: Some("hanna".to_string()),
            bio: Some("my bio".to_string()),
            avatar: Some(DbUrl::from_str("http://example.com/avatar.png")),
            banner: Some(DbUrl::from_str("http://example.com/banner.png")),
            matrix_id: Some("@hanna:example.com".to_string()),
            bot_account: Some(true),
            settings: Some(user.local_user.clone()),
            followed_communities: lists.followed_communities,
            blocked_communities: lists.blocked_communities,
            blocked_users: lists.blocked_users,
            saved_posts: lists.saved_posts,
        }
    );
    // The same state gives the same backup.
    let again = export_user_backup(
        user,
        UserBackupLists {
            followed_communities: backup.followed_communities.clone(),
            blocked_communities: backup.blocked_communities.clone(),
            blocked_users: backup.blocked_users.clone(),
            saved_posts: backup.saved_posts.clone(),
        },
    );
    assert_eq!(again, backup);
}

#[test]
fn import_without_settings_leaves_the_settings_alone() {
    let mut server = Server::new();
    let user = server.create_user("charles", None);
    let mut backup = empty_backup();
    backup.matrix_id = Some("@c:example.com".to_string());
    let plan = import_user_backup(backup, &user, None, None);
    assert_eq!(plan.local_user_form, LocalUserUpdateForm::empty());
    let mut after = user.clone();
    plan.local_user_form.apply(&mut after.local_user);
    assert_eq!(after.local_user, user.local_user);
    // A profile text that the backup lacks is cleared; a missing bot flag is kept.
    assert_eq!(plan.person_form.display_name, Some(None));
    assert_eq!(plan.person_form.bio, Some(None));
    assert_eq!(plan.person_form.matrix_user_id, Some(Some("@c:example.com".to_string())));
    assert_eq!(plan.person_form.bot_account, None);
    plan.person_form.apply(&mut after.person);
    assert_eq!(after.person.display_name, None);
    assert!(!after.person.bot_account);
}

#[test]
fn import_takes_the_sanitized_texts() {
    let mut server = Server::new();
    let user = server.create_user("charles", None);
    let mut backup = empty_backup();
    backup.display_name = Some("<b>hanna</b>".to_string());
    backup.bio = Some("<script>x</script>my bio".to_string());
    let plan =
        import_user_backup(backup, &user, Some("hanna".to_string()), Some("my bio".to_string()));
    assert_eq!(plan.person_form.display_name, Some(Some("hanna".to_string())));
    assert_eq!(plan.person_form.bio, Some(Some("my bio".to_string())));
}

#[test]
fn export_then_import_onto_the_same_person_adds_no_row() {
    let mut server = Server::new();
    let user = server.create_user("hanna", None);
    let me = user.person.id;
    server.add_local(ObjectKind::Community, "http://example.com/c/one", 1);
    server.add_local(ObjectKind::Community, "http://example.com/c/two", 2);
    server.add_local(ObjectKind::Person, "http://example.com/u/troll", 3);
    server.add_local(ObjectKind::Post, "http://example.com/post/4", 4);
    server.assert_row(LocalRelationship { subject: me, object: 1, kind: RelationKind::Follow }, false);
    server.assert_row(
        LocalRelationship { subject: me, object: 2, kind: RelationKind::BlockCommunity },
        false,
    );
    server.assert_row(
        LocalRelationship { subject: me, object: 3, kind: RelationKind::BlockPerson },
        false,
    );
    server.assert_row(LocalRelationship { subject: me, object: 4, kind: RelationKind::SavePost }, false);
    let before = server.table.clone();

    let backup = export_user_backup(user.clone(), server.lists_of(me));
    let plan = import_user_backup(backup.clone(), &user, None, None);
    let mut importer = plan.background.unwrap();
    assert_eq!(server.run(&mut importer), ImportStatus::Completed);
    assert_eq!(server.table, before);

    // And once more.
    let plan = import_user_backup(backup, &user, None, None);
    let mut importer = plan.background.unwrap();
    assert_eq!(server.run(&mut importer), ImportStatus::Completed);
    assert_eq!(server.table, before);
    assert_eq!(server.rows_of(me).len(), 4);
}

#[test]
fn blocks_that_are_unknown_locally_are_skipped_and_never_fetched() {
    let mut server = Server::new();
    let user = server.create_user("charles", None);
    server.add_local(ObjectKind::Community, "http://example.com/c/known", 1);
    // These two could be fetched, but a block list must not cause a fetch.
    server.add_remote(ObjectKind::Community, "http://evil.example/c/bait", 50);
    server.add_remote(ObjectKind::Person, "http://evil.example/u/bait", 51);
    let mut backup = empty_backup();
    backup.blocked_communities = vec![
        DbUrl::from_str("http://evil.example/c/bait"),
        DbUrl::from_str("http://example.com/c/known"),
    ];
    backup.blocked_users = vec![DbUrl::from_str("http://evil.example/u/bait")];
    let plan = import_user_backup(backup, &user, None, None);
    let mut importer = plan.background.unwrap();
    assert_eq!(server.run(&mut importer), ImportStatus::Completed);
    assert!(server.fetched.is_empty());
    assert_eq!(server.looked_up.len(), 3);
    assert_eq!(
        server.table,
        vec![(
            LocalRelationship {
                subject: user.person.id,
                object: 1,
                kind: RelationKind::BlockCommunity
            },
            false
        )]
    );
    assert_eq!(server.local.len(), 1);
}

#[test]
fn follow_and_saved_post_are_imported_onto_another_person() {
    let mut server = Server::new();
    let a = server.create_user("a", None);
    let b = server.create_user("b", None);
    server.add_local(ObjectKind::Community, "http://example.com/c/news", 11);
    server.add_local(ObjectKind::Post, "http://remote.example/post/77", 12);
    server.assert_row(
        LocalRelationship { subject: a.person.id, object: 11, kind: RelationKind::Follow },
        false,
    );
    server.assert_row(
        LocalRelationship { subject: a.person.id, object: 12, kind: RelationKind::SavePost },
        false,
    );
    let backup = export_user_backup(a.clone(), server.lists_of(a.person.id));
    assert_eq!(backup.followed_communities, vec![DbUrl::from_str("http://example.com/c/news")]);
    assert_eq!(backup.saved_posts, vec![DbUrl::from_str("http://remote.example/post/77")]);
    assert!(backup.blocked_communities.is_empty());
    assert!(backup.blocked_users.is_empty());

    // The importing server knows the community, and can fetch the post.
    let mut other = Server::new();
    other.add_local(ObjectKind::Community, "http://example.com/c/news", 21);
    other.add_remote(ObjectKind::Post, "http://remote.example/post/77", 22);
    let plan = import_user_backup(backup, &b, None, None);
    let mut importer = plan.background.unwrap();
    assert_eq!(other.run(&mut importer), ImportStatus::Completed);
    assert_eq!(
        other.table,
        vec![
            (
                LocalRelationship { subject: b.person.id, object: 21, kind: RelationKind::Follow },
                true
            ),
            (
                LocalRelationship { subject: b.person.id, object: 22, kind: RelationKind::SavePost },
                false
            ),
        ]
    );
    let post = GlobalObjectRef {
        kind: ObjectKind::Post,
        id: DbUrl::from_str("http://remote.example/post/77"),
    };
    assert_eq!(other.fetched.iter().filter(|r| r.same(&post)).count(), 1);
    assert!(other.looked_up.is_empty());
}

#[test]
fn importer_hands_out_one_request_per_reference() {
    let mut importer = BackupImporter::new(
        PersonId(1),
        vec![DbUrl::from_str("http://a/c/1"), DbUrl::from_str("http://a/c/2")],
        vec![DbUrl::from_str("http://a/c/3")],
        vec![DbUrl::from_str("http://a/u/4")],
        vec![DbUrl::from_str("http://a/post/5")],
    );
    assert_eq!(importer.subject(), PersonId(1));
    let t = |collection: Collection, index: usize| Task { collection, index };
    assert_eq!(
        importer.start(),
        vec![
            ImportAction::Fetch(t(Collection::FollowedCommunities, 0)),
            ImportAction::Fetch(t(Collection::FollowedCommunities, 1)),
            ImportAction::LookUpLocally(t(Collection::BlockedCommunities, 0)),
            ImportAction::LookUpLocally(t(Collection::BlockedUsers, 0)),
            ImportAction::Fetch(t(Collection::SavedPosts, 0)),
        ]
    );
    assert_eq!(importer.status(), ImportStatus::Running);
    assert_eq!(importer.start(), vec![]);
    assert_eq!(
        importer.reference(t(Collection::BlockedUsers, 0)),
        Some(GlobalObjectRef { kind: ObjectKind::Person, id: DbUrl::from_str("http://a/u/4") })
    );
    assert_eq!(
        importer.reference(t(Collection::FollowedCommunities, 1)),
        Some(GlobalObjectRef { kind: ObjectKind::Community, id: DbUrl::from_str("http://a/c/2") })
    );
    assert_eq!(
        importer.reference(t(Collection::BlockedCommunities, 0)),
        Some(GlobalObjectRef { kind: ObjectKind::Community, id: DbUrl::from_str("http://a/c/3") })
    );
    assert_eq!(
        importer.reference(t(Collection::SavedPosts, 0)),
        Some(GlobalObjectRef { kind: ObjectKind::Post, id: DbUrl::from_str("http://a/post/5") })
    );
    assert_eq!(importer.reference(t(Collection::SavedPosts, 1)), None);
}

#[test]
fn empty_import_completes_at_the_start() {
    let mut importer = BackupImporter::new(PersonId(1), vec![], vec![], vec![], vec![]);
    assert_eq!(importer.status(), ImportStatus::Pending);
    assert_eq!(importer.start(), vec![]);
    assert_eq!(importer.status(), ImportStatus::Completed);
}

#[test]
fn nothing_is_taken_up_before_the_start() {
    let mut importer =
        BackupImporter::new(PersonId(1), vec![DbUrl::from_str("http://a/c/1")], vec![], vec![], vec![]);
    let task = Task { collection: Collection::FollowedCommunities, index: 0 };
    assert_eq!(importer.step(ImportEvent::Fetched(task, 5)), None);
    assert_eq!(importer.status(), ImportStatus::Pending);
    importer.start();
    assert_eq!(
        importer.step(ImportEvent::Fetched(task, 5)),
        Some(ImportAction::Write {
            task,
            row: LocalRelationship { subject: PersonId(1), object: 5, kind: RelationKind::Follow },
            pending: true
        })
    );
}

#[test]
fn first_failure_ends_its_collection_and_is_the_one_reported() {
    let urls = |n: usize| -> Vec<DbUrl> {
        (0..n).map(|i| DbUrl::from_str(&format!("http://a/x/{}", i))).collect()
    };
    let mut importer = BackupImporter::new(PersonId(1), urls(3), urls(1), vec![], urls(2));
    let follow = |index: usize| Task { collection: Collection::FollowedCommunities, index };
    let saved = |index: usize| Task { collection: Collection::SavedPosts, index };
    let block = Task { collection: Collection::BlockedCommunities, index: 0 };
    assert_eq!(importer.start().len(), 6);

    // One follow is resolved and written, then another fails to resolve.
    assert!(importer.step(ImportEvent::Fetched(follow(0), 10)).is_some());
    assert_eq!(importer.step(ImportEvent::Written(follow(0))), None);
    assert_eq!(importer.step(ImportEvent::FetchFailed(follow(1), Error::CouldntFetchObject)), None);
    // What the rest of that collection reports is discarded.
    assert_eq!(importer.step(ImportEvent::Fetched(follow(2), 12)), None);
    assert_eq!(importer.status(), ImportStatus::Running);

    // The other collections go on.
    assert_eq!(
        importer.step(ImportEvent::FoundLocally(block, 20)),
        Some(ImportAction::Write {
            task: block,
            row: LocalRelationship {
                subject: PersonId(1),
                object: 20,
                kind: RelationKind::BlockCommunity
            },
            pending: false
        })
    );
    assert_eq!(importer.step(ImportEvent::Written(block)), None);
    assert_eq!(
        importer.step(ImportEvent::Fetched(saved(0), 30)),
        Some(ImportAction::Write {
            task: saved(0),
            row: LocalRelationship { subject: PersonId(1), object: 30, kind: RelationKind::SavePost },
            pending: false
        })
    );
    // A second failure, in another collection, does not replace the first.
    assert_eq!(importer.step(ImportEvent::WriteFailed(saved(0), Error::Storage)), None);
    assert_eq!(importer.status(), ImportStatus::Failed(Error::CouldntFetchObject));
    // Nothing is taken up after the end.
    assert_eq!(importer.step(ImportEvent::Fetched(saved(1), 31)), None);
    assert_eq!(importer.status(), ImportStatus::Failed(Error::CouldntFetchObject));
}

#[test]
fn events_that_answer_nothing_are_not_taken_up() {
    let mut importer = BackupImporter::new(
        PersonId(1),
        vec![DbUrl::from_str("http://a/c/1")],
        vec![DbUrl::from_str("http://a/c/2")],
        vec![],
        vec![],
    );
    importer.start();
    let follow = Task { collection: Collection::FollowedCommunities, index: 0 };
    let block = Task { collection: Collection::BlockedCommunities, index: 0 };
    // A local lookup does not answer a fetch, nor a fetch a local lookup.
    assert_eq!(importer.step(ImportEvent::FoundLocally(follow, 1)), None);
    assert_eq!(importer.step(ImportEvent::UnknownLocally(follow)), None);
    assert_eq!(importer.step(ImportEvent::Fetched(block, 2)), None);
    assert_eq!(importer.step(ImportEvent::FetchFailed(block, Error::CouldntFetchObject)), None);
    // No write is under way yet, and there is no second follow.
    assert_eq!(importer.step(ImportEvent::Written(follow)), None);
    assert_eq!(importer.step(ImportEvent::WriteFailed(follow, Error::Storage)), None);
    let missing = Task { collection: Collection::FollowedCommunities, index: 1 };
    assert_eq!(importer.step(ImportEvent::Fetched(missing, 3)), None);
    assert_eq!(importer.status(), ImportStatus::Running);
    // Each task is resolved once.
    assert!(importer.step(ImportEvent::Fetched(follow, 1)).is_some());
    assert_eq!(importer.step(ImportEvent::Fetched(follow, 1)), None);
    assert_eq!(importer.step(ImportEvent::Written(follow)), None);
    assert_eq!(importer.step(ImportEvent::Written(follow)), None);
    assert_eq!(importer.step(ImportEvent::UnknownLocally(block)), None);
    assert_eq!(importer.status(), ImportStatus::Completed);
}

#[test]
fn failed_import_can_be_run_again() {
    let mut server = Server::new();
    let user = server.create_user("charles", None);
    server.add_local(ObjectKind::Community, "http://a/c/1", 1);
    let mut backup = empty_backup();
    backup.followed_communities =
        vec![DbUrl::from_str("http://a/c/1"), DbUrl::from_str("http://down.example/c/2")];
    let plan = import_user_backup(backup.clone(), &user, None, None);
    let mut importer = plan.background.unwrap();
    assert_eq!(server.run(&mut importer), ImportStatus::Failed(Error::CouldntFetchObject));
    assert_eq!(server.table.len(), 1);
    // The other server is back.
    server.add_remote(ObjectKind::Community, "http://down.example/c/2", 2);
    let plan = import_user_backup(backup, &user, None, None);
    let mut importer = plan.background.unwrap();
    assert_eq!(server.run(&mut importer), ImportStatus::Completed);
    let objects: Vec<i32> = server.table.iter().map(|(r, _)| r.object).collect();
    assert_eq!(objects, vec![1, 2]);
}

#[test]
fn collections_stand_for_their_relationships() {
    assert!(Collection::FollowedCommunities.may_fetch());
    assert!(Collection::SavedPosts.may_fetch());
    assert!(!Collection::BlockedCommunities.may_fetch());
    assert!(!Collection::BlockedUsers.may_fetch());
    assert_eq!(Collection::FollowedCommunities.relation(), RelationKind::Follow);
    assert_eq!(Collection::BlockedCommunities.relation(), RelationKind::BlockCommunity);
    assert_eq!(Collection::BlockedUsers.relation(), RelationKind::BlockPerson);
    assert_eq!(Collection::SavedPosts.relation(), RelationKind::SavePost);
    assert_eq!(RelationKind::Follow.object_kind(), ObjectKind::Community);
    assert_eq!(RelationKind::BlockCommunity.object_kind(), ObjectKind::Community);
    assert_eq!(RelationKind::BlockPerson.object_kind(), ObjectKind::Person);
    assert_eq!(RelationKind::SavePost.object_kind(), ObjectKind::Post);
    assert_eq!(RelationKind::BanFromCommunity.object_kind(), ObjectKind::Community);
    let task = Task { collection: Collection::SavedPosts, index: 3 };
    assert_eq!(ImportEvent::Fetched(task, 1).task(), task);
    assert_eq!(ImportEvent::Fetched(task, 1).resolved(), Some(1));
    assert_eq!(ImportEvent::FoundLocally(task, 2).resolved(), Some(2));
    assert_eq!(ImportEvent::UnknownLocally(task).resolved(), None);
    assert_eq!(ImportEvent::Written(task).failure(), None);
    assert_eq!(ImportEvent::WriteFailed(task, Error::Storage).failure(), Some(Error::Storage));
    assert_eq!(
        ImportEvent::FetchFailed(task, Error::CouldntFetchObject).failure(),
        Some(Error::CouldntFetchObject)
    );
}
