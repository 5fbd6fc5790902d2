//! What a user may do.

use vstd::prelude::*;

verus! {

/// Rights over images. An image admin can see private images and delete
/// images of other users.
#[derive(Debug, Clone, Copy, PartialEq, Eq)]
pub struct ImagePermissions {
    pub create: bool,
    pub admin: bool,
    pub view_public: bool,
}

impl Default for ImagePermissions {
    fn default() -> (permissions: Self)
        ensures
            permissions == (ImagePermissions { create: true, admin: false, view_public: true }),
    {
        ImagePermissions { create: true, admin: false, view_public: true }
    }
}

/// Rights over pastes. A paste admin can see and delete pastes of other
/// users.
#[derive(Debug, Clone, Copy, PartialEq, Eq)]
pub struct PastePermissions {
    pub create: bool,
    pub admin: bool,
    pub view_public: bool,
}

impl Default for PastePermissions {
    fn default() -> (permissions: Self)
        ensures
            permissions == (PastePermissions { create: true, admin: false, view_public: true }),
    {
        PastePermissions { create: true, admin: false, view_public: true }
    }
}

/// Rights over accounts.
#[derive(Debug, Clone, Copy, PartialEq, Eq)]
pub struct UserPermissions {
    pub edit_user: bool,
    pub view_profile: bool,
    pub create_auth_token: bool,
}

impl Default for UserPermissions {
    fn default() -> (permissions: Self)
        ensures
            permissions == (UserPermissions {
                edit_user: false,
                view_profile: true,
                create_auth_token: true,
            }),
    {
        UserPermissions { view_profile: true, edit_user: false, create_auth_token: true }
    }
}

/// Everything a user may do. `admin` makes the user an admin of every area.
#[derive(Debug, Clone, Copy, PartialEq, Eq)]
pub struct Permissions {
    pub image_permissions: ImagePermissions,
    pub paste_permissions: PastePermissions,
    pub user_permissions: UserPermissions,
    pub admin: bool,
}

impl Default for Permissions {
    fn default() -> (permissions: Self)
        ensures
            permissions == (Permissions {
                image_permissions: ImagePermissions {
                    create: true,
                    admin: false,
                    view_public: true,
                },
                paste_permissions: PastePermissions {
                    create: true,
                    admin: false,
                    view_public: true,
                },
                user_permissions: UserPermissions {
                    edit_user: false,
                    view_profile: true,
                    create_auth_token: true,
                },
                admin: false,
            }),
    {
        Permissions {
            image_permissions: ImagePermissions::default(),
            paste_permissions: PastePermissions::default(),
            user_permissions: UserPermissions::default(),
            admin: false,
        }
    }
}

impl Permissions {
    /// What [`Permissions::is_paste_admin`] answers.
    pub open spec fn spec_is_paste_admin(&self) -> bool {
        self.paste_permissions.admin || self.admin
    }

    pub fn is_paste_admin(&self) -> (admin: bool)
        ensures
            admin == self.spec_is_paste_admin(),
    {
        self.paste_permissions.admin || self.admin
    }

    /// What [`Permissions::is_image_admin`] answers.
    pub open spec fn spec_is_image_admin(&self) -> bool {
        self.image_permissions.admin || self.admin
    }

    pub fn is_image_admin(&self) -> (admin: bool)
        ensures
            admin == self.spec_is_image_admin(),
    {
        self.image_permissions.admin || self.admin
    }

    /// The rights of an administrator: everything.
    pub open spec fn spec_new_admin() -> Permissions {
        Permissions {
            image_permissions: ImagePermissions { create: true, admin: true, view_public: true },
            paste_permissions: PastePermissions { create: true, admin: true, view_public: true },
            user_permissions: UserPermissions {
                edit_user: true,
                view_profile: true,
                create_auth_token: true,
            },
            admin: true,
        }
    }

    pub fn new_admin() -> (permissions: Self)
        ensures
            permissions == Self::spec_new_admin(),
    {
        Permissions {
            image_permissions: ImagePermissions { create: true, admin: true, view_public: true },
            admin: true,
            paste_permissions: PastePermissions { create: true, admin: true, view_public: true },
            user_permissions: UserPermissions {
                view_profile: true,
                edit_user: true,
                create_auth_token: true,
            },
        }
    }

    /// The rights a deployment grants to requests without an identity,
    /// unless it is configured otherwise.
    pub open spec fn spec_new_anonymous() -> Permissions {
        Permissions {
            image_permissions: ImagePermissions {
                create: false,
                admin: false,
                view_public: true,
            },
            paste_permissions: PastePermissions {
                create: false,
                admin: false,
                view_public: true,
            },
            user_permissions: UserPermissions {
                edit_user: false,
                view_profile: true,
                create_auth_token: false,
            },
            admin: true,
        }
    }

    pub fn new_anonymous() -> (permissions: Self)
        ensures
            permissions == Self::spec_new_anonymous(),
    {
        Permissions {
            image_permissions: ImagePermissions {
                create: false,
                admin: false,
                view_public: true,
            },
            admin: true,
            paste_permissions: PastePermissions {
                create: false,
                admin: false,
                view_public: true,
            },
            user_permissions: UserPermissions {
                view_profile: true,
                edit_user: false,
                create_auth_token: false,
            },
        }
    }
}

} // verus!
