//! Who may see a post.

use vstd::prelude::*;

verus! {

/// How widely a post is shown. A private post is always visible to its
/// owner, and to the users listed in `visible_to`.
#[derive(Debug, PartialEq, Eq, Hash)]
pub enum Visibility {
    Public,
    Unlisted,
    Private { visible_to: Vec<i64> },
}

impl Clone for Visibility {
    fn clone(&self) -> (copy: Self)
        ensures
            match self {
                Visibility::Public => copy is Public,
                Visibility::Unlisted => copy is Unlisted,
                Visibility::Private { visible_to } => copy is Private && copy->visible_to@
                    == visible_to@,
            },
    {
        match self {
            Visibility::Public => Visibility::Public,
            Visibility::Unlisted => Visibility::Unlisted,
            Visibility::Private { visible_to } => Visibility::Private {
                visible_to: visible_to.clone(),
            },
        }
    }
}

impl Default for Visibility {
    fn default() -> (visibility: Self)
        ensures
            visibility == Visibility::Public,
    {
        Visibility::Public
    }
}

/// Whether seeing something of this visibility takes a login.
pub open spec fn needs_login(visibility: Visibility) -> bool {
    visibility is Private
}

/// Whether a user who is not the owner may see something of this
/// visibility. The id 0 stands for nobody and is on no list.
pub open spec fn shown_to(visibility: Visibility, user_id: i64) -> bool {
    match visibility {
        Visibility::Public => true,
        Visibility::Unlisted => true,
        Visibility::Private { visible_to } => user_id != 0 && visible_to@.contains(user_id),
    }
}

/// Whether `user_id` occurs in `ids`.
fn lists(ids: &Vec<i64>, user_id: i64) -> (listed: bool)
    ensures
        listed == ids@.contains(user_id),
{
    let mut at: usize = 0;
    while at < ids.len()
        invariant
            at <= ids@.len(),
            forall|i: int| 0 <= i < at ==> ids@[i] != user_id,
        decreases ids@.len() - at,
    {
        if ids[at] == user_id {
            return true;
        }
        at = at + 1;
    }
    false
}

/// Something that has an owner and a visibility.
pub trait HasVisibility {
    /// The visibility that [`HasVisibility::visibility`] hands out. An
    /// implementation that does not say which leaves it open.
    open spec fn spec_visibility(&self) -> Visibility {
        arbitrary()
    }

    /// What [`HasVisibility::is_owner`] answers. An implementation that does
    /// not say what leaves it open.
    open spec fn spec_is_owner(&self, user_id: i64) -> bool {
        arbitrary()
    }

    fn visibility(&self) -> (visibility: &Visibility)
        ensures
            *visibility == self.spec_visibility(),
    ;

    fn is_owner(&self, user_id: i64) -> (owner: bool)
        ensures
            owner == self.spec_is_owner(user_id),
    ;

    /// Only private things take a login to be seen.
    fn requires_auth(&self) -> (required: bool)
        ensures
            required == needs_login(self.spec_visibility()),
    {
        match self.visibility() {
            Visibility::Public => false,
            Visibility::Unlisted => false,
            Visibility::Private { .. } => true,
        }
    }

    /// The owner sees everything of theirs; anyone else sees what the
    /// visibility shows them.
    fn is_visible_to(&self, user_id: i64) -> (visible: bool)
        ensures
            visible == (self.spec_is_owner(user_id) || shown_to(self.spec_visibility(), user_id)),
    {
        if self.is_owner(user_id) {
            return true;
        }
        match self.visibility() {
            Visibility::Public => true,
            Visibility::Unlisted => true,
            Visibility::Private { visible_to } => {
                if user_id == 0 {
                    return false;
                }
                lists(visible_to, user_id)
            },
        }
    }
}

impl HasVisibility for (i64, Visibility) {
    open spec fn spec_visibility(&self) -> Visibility {
        self.1
    }

    open spec fn spec_is_owner(&self, user_id: i64) -> bool {
        self.0 == user_id
    }

    fn visibility(&self) -> (visibility: &Visibility) {
        &self.1
    }

    fn is_owner(&self, user_id: i64) -> (owner: bool) {
        self.0 == user_id
    }
}

} // verus!
