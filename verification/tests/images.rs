use federated_actions::images::{LocalImage, LocalImageForm, RemoteImage, RemoteImageForm};
use federated_actions::newtypes::{DbUrl, LocalImageId, LocalUserId, Timestamp};

#[test]
fn local_image_form_is_built_in_any_order() {
    let form = LocalImageForm::builder()
        .local_user_id(LocalUserId(7))
        .pictrs_alias("alias.png".to_string())
        .pictrs_delete_token("token".to_string())
        .build();
    assert_eq!(
        form,
        LocalImageForm {
            local_user_id: LocalUserId(7),
            pictrs_alias: "alias.png".to_string(),
            pictrs_delete_token: "token".to_string(),
        }
    );
    let other = LocalImageForm::builder()
        .pictrs_delete_token("token".to_string())
        .pictrs_alias("alias.png".to_string())
        .local_user_id(LocalUserId(7))
        .build();
    assert_eq!(form, other);
}

#[test]
fn remote_image_form_is_built() {
    let form = RemoteImageForm::builder().link(DbUrl::from_str("http://example.com/a.png")).build();
    assert_eq!(form.link.as_str(), "http://example.com/a.png");
}

#[test]
fn image_rows_compare_and_copy() {
    let published = Timestamp { seconds: 1_700_000_000, nanoseconds: 5 };
    let image = LocalImage {
        id: LocalImageId(1),
        local_user_id: LocalUserId(2),
        pictrs_alias: "a".to_string(),
        pictrs_delete_token: "t".to_string(),
        published,
    };
    assert_eq!(image.clone(), image);
    let remote = RemoteImage { id: 3, link: DbUrl::from_str("http://example.com/b.png"), published };
    let copy = remote.clone();
    assert_eq!(copy, remote);
    assert_eq!(copy.link.as_str(), "http://example.com/b.png");
}

#[test]
fn addresses_are_equal_by_their_text() {
    let a = DbUrl::from_str("http://example.com/c/main");
    let b = DbUrl::new("http://example.com/c/main".to_string());
    let c = DbUrl::from_str("http://example.com/c/other");
    assert!(a.same(&b));
    assert!(!a.same(&c));
    assert_eq!(a, b);
    assert_ne!(a, c);
    assert_eq!(a.clone().into_string(), "http://example.com/c/main");
}
