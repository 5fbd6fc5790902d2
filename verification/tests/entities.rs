use std::path::PathBuf;

use nitro_share::common::file_location::{FileLocation, GetWebPath, HashFile, HashFileType};
use nitro_share::common::file_type::{default_charset, default_mime_type, FileType};
use nitro_share::common::visibility::{HasVisibility, Visibility};
use nitro_share::entities::permissions::{
    ImagePermissions, PastePermissions, Permissions, UserPermissions,
};
use nitro_share::entities::user::{User, UserModel};
use nitro_share::entities::OwnerAndVisibility;

#[test]
fn default_visibility_is_public() {
    assert_eq!(Visibility::default(), Visibility::Public);
}

#[test]
fn only_private_posts_require_auth() {
    assert!(!(1i64, Visibility::Public).requires_auth());
    assert!(!(1i64, Visibility::Unlisted).requires_auth());
    assert!((1i64, Visibility::Private { visible_to: vec![] }).requires_auth());
}

#[test]
fn public_and_unlisted_posts_are_visible_to_all() {
    assert!((1i64, Visibility::Public).is_visible_to(2));
    assert!((1i64, Visibility::Public).is_visible_to(0));
    assert!((1i64, Visibility::Unlisted).is_visible_to(2));
    assert!((1i64, Visibility::Unlisted).is_visible_to(0));
}

#[test]
fn private_posts_are_visible_to_owner_and_list() {
    let post = (1i64, Visibility::Private { visible_to: vec![5, 7, 0] });
    assert!(post.is_owner(1));
    assert!(!post.is_owner(5));
    assert!(post.is_visible_to(1));
    assert!(post.is_visible_to(5));
    assert!(post.is_visible_to(7));
    assert!(!post.is_visible_to(6));
    assert!(!post.is_visible_to(0));
    assert_eq!(post.visibility(), &Visibility::Private { visible_to: vec![5, 7, 0] });
}

#[test]
fn owner_zero_sees_their_own_private_post() {
    let post = (0i64, Visibility::Private { visible_to: vec![] });
    assert!(post.is_visible_to(0));
    assert!(!post.is_visible_to(1));
}

#[test]
fn visibility_clones_with_its_list() {
    let private = Visibility::Private { visible_to: vec![3, 4] };
    assert_eq!(private.clone(), private);
    assert_eq!(Visibility::Unlisted.clone(), Visibility::Unlisted);
    let owned = OwnerAndVisibility { user_id: 4, visibility: Visibility::Public };
    assert_eq!(owned.visibility, Visibility::Public);
}

#[test]
fn local_file_keeps_its_recorded_size() {
    let file = FileLocation::new_local(PathBuf::from("pastes/1/a.txt"), 12);
    assert_eq!(file, FileLocation::Local { location: PathBuf::from("pastes/1/a.txt"), size: 12 });
    assert_eq!(file.file_size(), 12);
    assert_eq!(file.get_hash_files(), Vec::<HashFile>::new());
    assert_eq!(file.clone(), file);
    let hash = HashFile { hash_type: HashFileType::SHA256, file, content: vec![1, 2] };
    assert_eq!(hash.clone(), hash);
}

struct Page;

impl GetWebPath for Page {
    fn get_path(&self) -> String {
        "paste/abc".to_string()
    }
}

#[test]
fn url_joins_base_and_path() {
    assert_eq!(Page.get_url("https://example.org".to_string()), "https://example.org/paste/abc");
    assert_eq!(Page.get_url(String::new()), "/paste/abc");
}

#[test]
fn file_type_defaults_to_plain_utf8_text() {
    assert_eq!(default_mime_type(), "text/plain");
    assert_eq!(default_charset(), "UTF-8");
    assert_eq!(
        FileType::default(),
        FileType {
            mime_type: "text/plain".to_string(),
            charset: "UTF-8".to_string(),
            programming_language: None,
            content_language: None,
        }
    );
}

#[test]
fn content_type_names_the_charset_unless_utf8() {
    assert_eq!(FileType::default().mime_type_string(), "text/plain");
    let latin = FileType::new("text/html".to_string(), "ISO-8859-1".to_string());
    assert_eq!(latin.programming_language, None);
    assert_eq!(latin.content_language, None);
    assert_eq!(latin.mime_type_string(), "text/html; charset=ISO-8859-1");
    let lower = FileType::new("text/html".to_string(), "utf-8".to_string());
    assert_eq!(lower.mime_type_string(), "text/html; charset=utf-8");
    let mut tagged = FileType::new("application/json".to_string(), "UTF-8".to_string());
    tagged.programming_language = Some("json".to_string());
    assert_eq!(tagged.mime_type_string(), "application/json");
    assert_eq!(tagged.clone(), tagged);
}

#[test]
fn default_permissions() {
    assert_eq!(
        ImagePermissions::default(),
        ImagePermissions { create: true, admin: false, view_public: true }
    );
    assert_eq!(
        PastePermissions::default(),
        PastePermissions { create: true, admin: false, view_public: true }
    );
    assert_eq!(
        UserPermissions::default(),
        UserPermissions { edit_user: false, view_profile: true, create_auth_token: true }
    );
    let permissions = Permissions::default();
    assert_eq!(permissions.image_permissions, ImagePermissions::default());
    assert_eq!(permissions.paste_permissions, PastePermissions::default());
    assert_eq!(permissions.user_permissions, UserPermissions::default());
    assert!(!permissions.admin);
    assert!(!permissions.is_paste_admin());
    assert!(!permissions.is_image_admin());
}

#[test]
fn admin_permissions_grant_everything() {
    let admin = Permissions::new_admin();
    assert_eq!(
        admin,
        Permissions {
            image_permissions: ImagePermissions { create: true, admin: true, view_public: true },
            paste_permissions: PastePermissions { create: true, admin: true, view_public: true },
            user_permissions: UserPermissions {
                edit_user: true,
                view_profile: true,
                create_auth_token: true
            },
            admin: true,
        }
    );
    assert!(admin.is_paste_admin() && admin.is_image_admin());
}

#[test]
fn anonymous_permissions() {
    let anonymous = Permissions::new_anonymous();
    assert_eq!(
        anonymous.image_permissions,
        ImagePermissions { create: false, admin: false, view_public: true }
    );
    assert_eq!(
        anonymous.paste_permissions,
        PastePermissions { create: false, admin: false, view_public: true }
    );
    assert_eq!(
        anonymous.user_permissions,
        UserPermissions { edit_user: false, view_profile: true, create_auth_token: false }
    );
    assert!(anonymous.admin);
}

#[test]
fn area_admin_is_admin_of_that_area_only() {
    let mut permissions = Permissions::default();
    permissions.paste_permissions.admin = true;
    assert!(permissions.is_paste_admin());
    assert!(!permissions.is_image_admin());
    permissions.paste_permissions.admin = false;
    permissions.image_permissions.admin = true;
    assert!(!permissions.is_paste_admin());
    assert!(permissions.is_image_admin());
}

#[test]
fn user_is_the_account_without_its_password() {
    let model = UserModel {
        id: 3,
        name: "Ada".to_string(),
        username: "ada".to_string(),
        email: "ada@example.org".to_string(),
        email_verified: Some(10),
        permissions: Permissions::new_admin(),
        password: Some("$argon2id$...".to_string()),
        password_changed_at: Some(11),
        password_reset_required: true,
        banned: false,
        created: 9,
    };
    let user = User::from(model);
    assert_eq!(
        user,
        User {
            id: 3,
            name: "Ada".to_string(),
            username: "ada".to_string(),
            email: "ada@example.org".to_string(),
            email_verified: Some(10),
            permissions: Permissions::new_admin(),
            password_changed_at: Some(11),
            password_reset_required: true,
            banned: false,
            created: 9,
        }
    );
    assert_eq!(user.clone(), user);
}
