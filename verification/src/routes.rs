//! The pages of the frontend and who may see them.

use vstd::prelude::*;

verus! {

/// The pages under the settings.
#[derive(PartialEq, Eq, Structural, Clone, Copy, Debug)]
pub enum SettingsRoute {
    AdminLibraries,
    AdminMembers,
    AdminMyServer,
    AdminTasks,
    MemberGeneral,
}

impl SettingsRoute {
    /// Whether the page is one of the server's administration.
    pub open spec fn spec_is_admin(self) -> bool {
        !(self is MemberGeneral)
    }

    /// Whether the page is one of the server's administration.
    pub fn is_admin(&self) -> (r: bool)
        ensures
            r == self.spec_is_admin(),
    {
        match self {
            SettingsRoute::AdminLibraries => true,
            SettingsRoute::AdminMembers => true,
            SettingsRoute::AdminMyServer => true,
            SettingsRoute::AdminTasks => true,
            SettingsRoute::MemberGeneral => false,
        }
    }
}

/// The pages of the frontend, with the ids that they show.
#[derive(PartialEq, Eq, Structural, Clone, Copy, Debug)]
pub enum BaseRoute {
    Login,
    Logout,
    ViewLibrary { id: u64 },
    ViewBook { book_id: u64 },
    ReadBook { book_id: u64 },
    People,
    ViewPerson { person_id: u64 },
    Collections,
    ViewCollection { id: u64 },
    Settings,
    Setup,
    Dashboard,
}

/// What is shown for a page.
#[derive(PartialEq, Eq, Structural, Clone, Copy, Debug)]
pub enum Shown {
    /// The login page, in place of the page asked for.
    LoginPage,
    /// The page asked for.
    Page(BaseRoute),
}

/// What is shown for a settings page.
#[derive(PartialEq, Eq, Structural, Clone, Copy, Debug)]
pub enum SettingsShown {
    /// The refusal shown to a member who is not the owner.
    NoPermissions,
    /// The settings page asked for.
    Page(SettingsRoute),
}

/// What is shown for `route` to a visitor with `permissions`: `None` when
/// nobody is signed in, else whether the member is the server's owner.
pub open spec fn spec_switch_base(route: BaseRoute, permissions: Option<bool>) -> Shown {
    if permissions is None && route != BaseRoute::Setup {
        Shown::LoginPage
    } else {
        Shown::Page(route)
    }
}

/// What is shown for the page `route`: without a signed-in member, every
/// page but the setup is the login page.
pub fn switch_base(route: BaseRoute, permissions: Option<bool>) -> (r: Shown)
    ensures
        r == spec_switch_base(route, permissions),
{
    let is_setup = match route {
        BaseRoute::Setup => true,
        _ => false,
    };
    if permissions.is_none() && !is_setup {
        Shown::LoginPage
    } else {
        Shown::Page(route)
    }
}

/// What is shown for the settings page `route` to a member: the pages of
/// administration are the owner's alone.
pub fn switch_settings(route: SettingsRoute, is_owner: bool) -> (r: SettingsShown)
    ensures
        r == (if route.spec_is_admin() && !is_owner {
            SettingsShown::NoPermissions
        } else {
            SettingsShown::Page(route)
        }),
{
    if route.is_admin() && !is_owner {
        SettingsShown::NoPermissions
    } else {
        SettingsShown::Page(route)
    }
}

/// Which list the sidebar shows.
#[derive(PartialEq, Eq, Structural, Clone, Copy, Debug)]
pub enum Viewing {
    Main,
    Settings,
}

impl Viewing {
    /// The sidebar shows the settings list on the settings pages alone.
    pub fn get_from_route(route: &BaseRoute) -> (r: Viewing)
        ensures
            r == (if *route == BaseRoute::Settings { Viewing::Settings } else { Viewing::Main }),
    {
        match route {
            BaseRoute::Settings => Viewing::Settings,
            _ => Viewing::Main,
        }
    }
}

} // verus!
