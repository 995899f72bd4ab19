//! The application shell: the content store, the route switch, and the
//! composition of sidebar and main content around the one shell-level
//! flag, whether the mobile menu is open.

use crate::contact::SubmissionState;
use crate::content::{About, ContactForm, Privacy, Profile, Project, Resume, Terms};
use crate::order::{projects_ordered, sort_projects, undated_pred};
use crate::routes::Route;
use crate::views::{
    about_view, about_vm, channels_match, contact_view, education_vms, experience_vms,
    form_vm_matches, nav_entries, not_found_view, privacy_view, privacy_vm, project_card_vms,
    projects_view, resume_view, sidebar, skill_group_vms, terms_view, terms_vm, AboutVm, ContactVm,
    NotFoundVm, ProjectsVm, ResumeVm, SidebarProps, SidebarVm,
};
use vstd::prelude::*;

verus! {

/// The loaded content, one record per document, with the project list
/// already in display order.
pub struct ContentStore {
    pub profile: Profile,
    pub about: About,
    pub resume: Resume,
    pub projects: Vec<Project>,
    pub terms: Terms,
    pub privacy: Privacy,
}

impl ContentStore {
    /// The project list stands in display order.
    pub open spec fn wf(&self) -> bool {
        projects_ordered(self.projects@)
    }

    /// Builds the store from the parsed documents, putting the project
    /// list in display order and leaving everything else as loaded.
    pub fn new(
        profile: Profile,
        about: About,
        resume: Resume,
        projects: Vec<Project>,
        terms: Terms,
        privacy: Privacy,
    ) -> (r: ContentStore)
        ensures
            r.wf(),
            r.profile == profile,
            r.about == about,
            r.resume == resume,
            r.terms == terms,
            r.privacy == privacy,
            r.projects@.to_multiset() == projects@.to_multiset(),
            r.projects@.filter(undated_pred()) == projects@.filter(undated_pred()),
    {
        ContentStore {
            profile,
            about,
            resume,
            projects: sort_projects(projects),
            terms,
            privacy,
        }
    }
}

/// The rendered main content for one route.
pub enum Page {
    About(AboutVm),
    Resume(ResumeVm),
    Projects(ProjectsVm),
    Contact(ContactVm),
    NotFound(NotFoundVm),
}

/// The page for a route shows exactly what that route's view renders
/// from the store and, for the contact page, from the form state.
pub open spec fn page_matches(
    route: Route,
    store: ContentStore,
    form: ContactForm,
    status: SubmissionState,
    form_enabled: bool,
    page: Page,
) -> bool {
    match route {
        Route::About => page matches Page::About(vm) && vm == about_vm(store.about),
        Route::Resume => page matches Page::Resume(vm) && {
            &&& vm.experiences@ == experience_vms(store.resume.experience@)
            &&& vm.educations@ == education_vms(store.resume.education@)
            &&& vm.skill_groups@ == skill_group_vms(store.resume.skills@)
        },
        Route::Projects => page matches Page::Projects(vm) && vm.cards@ == project_card_vms(
            store.projects@,
        ),
        Route::Contact => page matches Page::Contact(vm) && {
            &&& form_enabled ==> vm.methods is None && (vm.form matches Some(f)
                && form_vm_matches(f, form, status))
            &&& !form_enabled ==> vm.form is None && (vm.methods matches Some(m)
                && channels_match(
                m,
                store.profile.email,
                store.profile.linkedin,
                store.profile.github,
            ))
        },
        Route::NotFound => page matches Page::NotFound(vm) && vm.home_route == Route::About,
    }
}

fn clone_string_option(s: &Option<String>) -> (r: Option<String>)
    ensures
        r == *s,
{
    match s {
        Option::Some(x) => Some(x.clone()),
        Option::None => None,
    }
}

fn clone_profile(p: &Profile) -> (r: Profile)
    ensures
        r == *p,
{
    Profile {
        name: p.name.clone(),
        title: p.title.clone(),
        email: clone_string_option(&p.email),
        phone: clone_string_option(&p.phone),
        linkedin: clone_string_option(&p.linkedin),
        github: clone_string_option(&p.github),
    }
}

/// Renders the main content for a route. Every route shows its own view
/// and nothing else; an unmatched path has already become `NotFound`.
pub fn switch(
    route: Route,
    store: ContentStore,
    contact_form: ContactForm,
    contact_status: SubmissionState,
    contact_form_enabled: bool,
) -> (r: Page)
    ensures
        page_matches(route, store, contact_form, contact_status, contact_form_enabled, r),
{
    match route {
        Route::About => Page::About(about_view(store.about)),
        Route::Resume => Page::Resume(resume_view(store.resume)),
        Route::Projects => Page::Projects(projects_view(store.projects)),
        Route::Contact => Page::Contact(
            contact_view(store.profile, contact_form, contact_status, contact_form_enabled),
        ),
        Route::NotFound => Page::NotFound(not_found_view()),
    }
}

/// Flips the mobile menu, as the menu button does.
pub fn toggle_menu(open: bool) -> (r: bool)
    ensures
        r == !open,
{
    !open
}

/// Closes the mobile menu, as tapping the overlay does.
pub fn close_menu() -> (r: bool)
    ensures
        !r,
{
    false
}

/// What a click on a navigation entry requests: show the target page and
/// close the mobile menu — a one-way notification; the shell keeps the
/// authoritative flag.
pub struct NavAction {
    pub go_to: Route,
    pub close_menu: bool,
}

/// Reacts to a click on a navigation entry.
pub fn nav_click(target: Route) -> (r: NavAction)
    ensures
        r.go_to == target,
        r.close_menu,
{
    NavAction { go_to: target, close_menu: true }
}

/// The whole window: the menu button, the overlay and second sidebar
/// that exist only while the mobile menu is open, the fixed desktop
/// sidebar, and the main content.
pub struct ShellVm {
    pub menu_button_shows_close: bool,
    pub overlay: bool,
    pub desktop_sidebar: SidebarVm,
    pub mobile_sidebar: Option<SidebarVm>,
    pub main_mobile_layout: bool,
    pub page: Page,
}

/// A sidebar fits the shell when it shows the given profile and marks
/// the given route active.
pub open spec fn sidebar_fits(s: SidebarVm, profile: Profile, route: Route) -> bool {
    &&& s.name == profile.name
    &&& s.title == profile.title
    &&& s.nav@ == nav_entries(route)
    &&& s.get_in_touch is Some <==> profile.has_any_contact_channel()
    &&& s.get_in_touch matches Some(g) ==> channels_match(
        g,
        profile.email,
        profile.linkedin,
        profile.github,
    )
}

/// Renders the window for the current route and menu state.
pub fn shell_view(
    store: ContentStore,
    route: Route,
    menu_open: bool,
    contact_form: ContactForm,
    contact_status: SubmissionState,
    contact_form_enabled: bool,
) -> (r: ShellVm)
    ensures
        r.menu_button_shows_close == menu_open,
        r.overlay == menu_open,
        r.main_mobile_layout == menu_open,
        sidebar_fits(r.desktop_sidebar, store.profile, route),
        !r.desktop_sidebar.mobile && r.desktop_sidebar.open,
        r.mobile_sidebar is Some <==> menu_open,
        r.mobile_sidebar matches Some(s) ==> sidebar_fits(s, store.profile, route) && s.mobile
            && s.open,
        page_matches(route, store, contact_form, contact_status, contact_form_enabled, r.page),
{
    let desktop_profile = clone_profile(&store.profile);
    let desktop_sidebar = sidebar(
        SidebarProps {
            profile: desktop_profile,
            current_route: route,
            is_mobile: false,
            is_open: true,
        },
    );
    let mobile_sidebar = if menu_open {
        let mobile_profile = clone_profile(&store.profile);
        Some(
            sidebar(
                SidebarProps {
                    profile: mobile_profile,
                    current_route: route,
                    is_mobile: true,
                    is_open: menu_open,
                },
            ),
        )
    } else {
        None
    };
    let page = switch(route, store, contact_form, contact_status, contact_form_enabled);
    ShellVm {
        menu_button_shows_close: menu_open,
        overlay: menu_open,
        desktop_sidebar,
        mobile_sidebar,
        main_mobile_layout: menu_open,
        page,
    }
}

} // verus!
