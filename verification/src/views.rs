//! One pure rendering function per page.
//!
//! Each view maps its content record to a view model: the tree of texts,
//! conditional blocks and links the page shows. An optional element is an
//! `Option` in the model — it is omitted entirely when its datum is
//! absent, never rendered empty. The surrounding program turns the models
//! into markup verbatim.

use crate::contact::SubmissionState;
use crate::content::{
    About, AboutSection, ContactForm, Education, Experience, LegalSection, Privacy, Profile,
    Project, Resume, SkillCategory, Terms,
};
use crate::ext::{char_is_space, is_unicode_space, push_char, to_upper, upper_of};
use crate::routes::Route;
use vstd::prelude::*;

verus! {

// ---------------------------------------------------------------- About
/// The About page: intro, prose sections, and two bottom blocks present
/// only when they have entries.
pub struct AboutVm {
    pub intro: String,
    pub sections: Vec<AboutSection>,
    pub interests: Option<Vec<String>>,
    pub values: Option<Vec<String>>,
}

/// What the About page shows for given content: one interest tag per
/// interest, one list item per value, one block per section.
pub open spec fn about_vm(a: About) -> AboutVm {
    AboutVm {
        intro: a.intro,
        sections: a.sections,
        interests: if a.interests@.len() == 0 {
            None
        } else {
            Some(a.interests)
        },
        values: if a.values@.len() == 0 {
            None
        } else {
            Some(a.values)
        },
    }
}

/// Renders the About page.
pub fn about_view(a: About) -> (r: AboutVm)
    ensures
        r == about_vm(a),
{
    let About { intro, sections, interests, values } = a;
    let interests_block = if interests.len() == 0 {
        None
    } else {
        Some(interests)
    };
    let values_block = if values.len() == 0 {
        None
    } else {
        Some(values)
    };
    AboutVm { intro, sections, interests: interests_block, values: values_block }
}

// --------------------------------------------------------------- Resume
/// One employment entry as displayed.
pub struct ExperienceVm {
    pub title: String,
    pub duration_badge: String,
    pub company: String,
    pub description: Option<String>,
    pub tech_tags: Vec<String>,
}

/// What an experience entry shows: position as title, duration as badge,
/// then company, optional description, and one tag per technology.
pub open spec fn experience_vm(e: Experience) -> ExperienceVm {
    ExperienceVm {
        title: e.position,
        duration_badge: e.duration,
        company: e.company,
        description: e.description,
        tech_tags: e.technologies,
    }
}

/// One education entry as displayed.
pub struct EducationVm {
    pub title: String,
    pub year_badge: Option<String>,
    pub school: String,
    pub details: Option<String>,
}

/// What an education entry shows: degree as title, the year as a badge
/// only when given, then school and optional details.
pub open spec fn education_vm(e: Education) -> EducationVm {
    EducationVm { title: e.degree, year_badge: e.year, school: e.school, details: e.details }
}

/// One skill group as displayed.
pub struct SkillGroupVm {
    pub heading: String,
    pub tags: Vec<String>,
}

/// What a skill group shows: its name as heading and one tag per skill.
pub open spec fn skill_group_vm(c: SkillCategory) -> SkillGroupVm {
    SkillGroupVm { heading: c.name, tags: c.items }
}

/// The Resume page: three independent repeated sections.
pub struct ResumeVm {
    pub experiences: Vec<ExperienceVm>,
    pub educations: Vec<EducationVm>,
    pub skill_groups: Vec<SkillGroupVm>,
}

/// The displayed experience entries, in content order.
pub open spec fn experience_vms(items: Seq<Experience>) -> Seq<ExperienceVm> {
    items.map_values(|e: Experience| experience_vm(e))
}

/// The displayed education entries, in content order.
pub open spec fn education_vms(items: Seq<Education>) -> Seq<EducationVm> {
    items.map_values(|e: Education| education_vm(e))
}

/// The displayed skill groups, in content order.
pub open spec fn skill_group_vms(items: Seq<SkillCategory>) -> Seq<SkillGroupVm> {
    items.map_values(|c: SkillCategory| skill_group_vm(c))
}

/// Renders one employment entry.
pub fn render_experience(e: Experience) -> (r: ExperienceVm)
    ensures
        r == experience_vm(e),
{
    let Experience { position, company, duration, description, technologies } = e;
    ExperienceVm {
        title: position,
        duration_badge: duration,
        company,
        description,
        tech_tags: technologies,
    }
}

/// Renders one education entry.
pub fn render_education(e: Education) -> (r: EducationVm)
    ensures
        r == education_vm(e),
{
    let Education { degree, school, year, details } = e;
    EducationVm { title: degree, year_badge: year, school, details }
}

/// Renders one skill group.
pub fn render_skill_category(c: SkillCategory) -> (r: SkillGroupVm)
    ensures
        r == skill_group_vm(c),
{
    let SkillCategory { name, items } = c;
    SkillGroupVm { heading: name, tags: items }
}

fn render_experiences(items: Vec<Experience>) -> (r: Vec<ExperienceVm>)
    ensures
        r@ == experience_vms(items@),
{
    let ghost orig = items@;
    let mut rest = items;
    let mut out: Vec<ExperienceVm> = Vec::new();
    proof {
        assert(orig.skip(0) == orig);
    }
    while rest.len() > 0
        invariant
            out@.len() + rest@.len() == orig.len(),
            rest@ == orig.skip(out@.len() as int),
            forall|k: int| 0 <= k < out@.len() ==> out@[k] == experience_vm(#[trigger] orig[k]),
        decreases rest.len(),
    {
        assert(orig.skip(out@.len() as int)[0] == orig[out@.len() as int]);
        let e = rest.remove(0);
        let vm = render_experience(e);
        out.push(vm);
        proof {
            assert(rest@ =~= orig.skip(out@.len() as int));
        }
    }
    proof {
        assert(out@ =~= experience_vms(orig));
    }
    out
}

fn render_educations(items: Vec<Education>) -> (r: Vec<EducationVm>)
    ensures
        r@ == education_vms(items@),
{
    let ghost orig = items@;
    let mut rest = items;
    let mut out: Vec<EducationVm> = Vec::new();
    proof {
        assert(orig.skip(0) == orig);
    }
    while rest.len() > 0
        invariant
            out@.len() + rest@.len() == orig.len(),
            rest@ == orig.skip(out@.len() as int),
            forall|k: int| 0 <= k < out@.len() ==> out@[k] == education_vm(#[trigger] orig[k]),
        decreases rest.len(),
    {
        assert(orig.skip(out@.len() as int)[0] == orig[out@.len() as int]);
        let e = rest.remove(0);
        let vm = render_education(e);
        out.push(vm);
        proof {
            assert(rest@ =~= orig.skip(out@.len() as int));
        }
    }
    proof {
        assert(out@ =~= education_vms(orig));
    }
    out
}

fn render_skill_categories(items: Vec<SkillCategory>) -> (r: Vec<SkillGroupVm>)
    ensures
        r@ == skill_group_vms(items@),
{
    let ghost orig = items@;
    let mut rest = items;
    let mut out: Vec<SkillGroupVm> = Vec::new();
    proof {
        assert(orig.skip(0) == orig);
    }
    while rest.len() > 0
        invariant
            out@.len() + rest@.len() == orig.len(),
            rest@ == orig.skip(out@.len() as int),
            forall|k: int| 0 <= k < out@.len() ==> out@[k] == skill_group_vm(#[trigger] orig[k]),
        decreases rest.len(),
    {
        assert(orig.skip(out@.len() as int)[0] == orig[out@.len() as int]);
        let c = rest.remove(0);
        let vm = render_skill_category(c);
        out.push(vm);
        proof {
            assert(rest@ =~= orig.skip(out@.len() as int));
        }
    }
    proof {
        assert(out@ =~= skill_group_vms(orig));
    }
    out
}

/// Renders the Resume page: the three sections are independent and each
/// keeps its content order.
pub fn resume_view(resume: Resume) -> (r: ResumeVm)
    ensures
        r.experiences@ == experience_vms(resume.experience@),
        r.educations@ == education_vms(resume.education@),
        r.skill_groups@ == skill_group_vms(resume.skills@),
{
    let Resume { experience, education, skills } = resume;
    ResumeVm {
        experiences: render_experiences(experience),
        educations: render_educations(education),
        skill_groups: render_skill_categories(skills),
    }
}

// -------------------------------------------------------------- Projects
/// An external link on a project card; always opens in a new browsing
/// context.
pub struct ProjectLink {
    pub href: String,
    pub new_tab: bool,
}

/// One project card as displayed.
pub struct ProjectCardVm {
    pub title: String,
    pub date_line: Option<String>,
    pub description: Option<String>,
    pub tech_tags: Vec<String>,
    pub website_link: Option<ProjectLink>,
    pub source_link: Option<ProjectLink>,
}

/// A card link for an optional address.
pub open spec fn project_link(href: Option<String>) -> Option<ProjectLink> {
    match href {
        Option::Some(h) => Some(ProjectLink { href: h, new_tab: true }),
        Option::None => None,
    }
}

/// What a project card shows: name as title, the date line only when
/// dated, optional description, one tag per keyword, and up to two
/// external links, each opening in a new browsing context.
pub open spec fn project_card_vm(p: Project) -> ProjectCardVm {
    ProjectCardVm {
        title: p.name,
        date_line: p.date,
        description: p.description,
        tech_tags: p.keywords,
        website_link: project_link(p.website),
        source_link: project_link(p.github),
    }
}

/// The displayed cards, in list order.
pub open spec fn project_card_vms(items: Seq<Project>) -> Seq<ProjectCardVm> {
    items.map_values(|p: Project| project_card_vm(p))
}

fn external_link(href: Option<String>) -> (r: Option<ProjectLink>)
    ensures
        r == project_link(href),
{
    match href {
        Option::Some(h) => Some(ProjectLink { href: h, new_tab: true }),
        Option::None => None,
    }
}

/// Renders one project card.
pub fn render_project(p: Project) -> (r: ProjectCardVm)
    ensures
        r == project_card_vm(p),
{
    let Project { name, description, keywords, website, github, image: _, date } = p;
    ProjectCardVm {
        title: name,
        date_line: date,
        description,
        tech_tags: keywords,
        website_link: external_link(website),
        source_link: external_link(github),
    }
}

/// The Projects page: one card per project, in the order given.
pub struct ProjectsVm {
    pub cards: Vec<ProjectCardVm>,
}

/// Renders the Projects page from the (already ordered) project list.
pub fn projects_view(projects: Vec<Project>) -> (r: ProjectsVm)
    ensures
        r.cards@ == project_card_vms(projects@),
{
    let ghost orig = projects@;
    let mut rest = projects;
    let mut out: Vec<ProjectCardVm> = Vec::new();
    proof {
        assert(orig.skip(0) == orig);
    }
    while rest.len() > 0
        invariant
            out@.len() + rest@.len() == orig.len(),
            rest@ == orig.skip(out@.len() as int),
            forall|k: int| 0 <= k < out@.len() ==> out@[k] == project_card_vm(#[trigger] orig[k]),
        decreases rest.len(),
    {
        assert(orig.skip(out@.len() as int)[0] == orig[out@.len() as int]);
        let p = rest.remove(0);
        let card = render_project(p);
        out.push(card);
        proof {
            assert(rest@ =~= orig.skip(out@.len() as int));
        }
    }
    proof {
        assert(out@ =~= project_card_vms(orig));
    }
    ProjectsVm { cards: out }
}

// ----------------------------------------------------- Terms and Privacy
/// A legal document page: title, effective date, and its sections in
/// order. Terms and privacy pages share this shape.
pub struct LegalVm {
    pub title: String,
    pub effective_date: String,
    pub sections: Vec<LegalSection>,
}

/// What the Terms page shows.
pub open spec fn terms_vm(t: Terms) -> LegalVm {
    LegalVm { title: t.title, effective_date: t.effective_date, sections: t.sections }
}

/// Renders the Terms page.
pub fn terms_view(t: Terms) -> (r: LegalVm)
    ensures
        r == terms_vm(t),
{
    let Terms { title, effective_date, sections } = t;
    LegalVm { title, effective_date, sections }
}

/// What the Privacy page shows.
pub open spec fn privacy_vm(p: Privacy) -> LegalVm {
    LegalVm { title: p.title, effective_date: p.effective_date, sections: p.sections }
}

/// Renders the Privacy page.
pub fn privacy_view(p: Privacy) -> (r: LegalVm)
    ensures
        r == privacy_vm(p),
{
    let Privacy { title, effective_date, sections } = p;
    LegalVm { title, effective_date, sections }
}

// -------------------------------------------------------------- NotFound
/// The Not Found page: fixed text and one action that leads home.
pub struct NotFoundVm {
    pub home_route: Route,
}

/// Renders the Not Found page; its action returns to the About page at
/// the root path.
pub fn not_found_view() -> (r: NotFoundVm)
    ensures
        r.home_route == Route::About,
{
    NotFoundVm { home_route: Route::About }
}

// --------------------------------------------------------------- Sidebar
/// A link to a contact channel. Profile sites open in a new browsing
/// context; the email link opens the mail client instead.
pub struct ChannelLink {
    pub href: String,
    pub new_tab: bool,
}

/// The contact-channel links a profile offers, one per present channel.
pub struct ContactChannelsVm {
    pub email: Option<ChannelLink>,
    pub linkedin: Option<ChannelLink>,
    pub github: Option<ChannelLink>,
}

/// The channel links are exactly the profile's: each present if and only
/// if its channel is, profile links verbatim and in a new tab, the email
/// link a `mailto:` address.
pub open spec fn channels_match(
    c: ContactChannelsVm,
    email: Option<String>,
    linkedin: Option<String>,
    github: Option<String>,
) -> bool {
    &&& match (c.linkedin, linkedin) {
        (Option::Some(l), Option::Some(url)) => l.href == url && l.new_tab,
        (Option::None, Option::None) => true,
        _ => false,
    }
    &&& match (c.github, github) {
        (Option::Some(l), Option::Some(url)) => l.href == url && l.new_tab,
        (Option::None, Option::None) => true,
        _ => false,
    }
    &&& match (c.email, email) {
        (Option::Some(l), Option::Some(addr)) => l.href@ == "mailto:"@ + addr@ && l.new_tab,
        (Option::None, Option::None) => true,
        _ => false,
    }
}

fn profile_site_link(url: Option<String>) -> (r: Option<ChannelLink>)
    ensures
        match (r, url) {
            (Option::Some(l), Option::Some(u)) => l.href == u && l.new_tab,
            (Option::None, Option::None) => true,
            _ => false,
        },
{
    match url {
        Option::Some(u) => Some(ChannelLink { href: u, new_tab: true }),
        Option::None => None,
    }
}

fn mailto_link(addr: Option<String>) -> (r: Option<ChannelLink>)
    ensures
        match (r, addr) {
            (Option::Some(l), Option::Some(a)) => l.href@ == "mailto:"@ + a@ && l.new_tab,
            (Option::None, Option::None) => true,
            _ => false,
        },
{
    match addr {
        Option::Some(a) => {
            let mut href = String::from_str("mailto:");
            href.append(a.as_str());
            Some(ChannelLink { href, new_tab: true })
        },
        Option::None => None,
    }
}

fn contact_channels(email: Option<String>, linkedin: Option<String>, github: Option<String>) -> (r:
    ContactChannelsVm)
    ensures
        channels_match(r, email, linkedin, github),
        r.email is Some <==> email is Some,
        r.linkedin is Some <==> linkedin is Some,
        r.github is Some <==> github is Some,
{
    ContactChannelsVm {
        email: mailto_link(email),
        linkedin: profile_site_link(linkedin),
        github: profile_site_link(github),
    }
}

/// What the sidebar is rendered from.
pub struct SidebarProps {
    pub profile: Profile,
    pub current_route: Route,
    pub is_mobile: bool,
    pub is_open: bool,
}

/// One navigation entry; at most the entry of the current page is marked
/// active.
pub struct NavEntry {
    pub target: Route,
    pub active: bool,
}

/// The fixed navigation list, with the entry for the current page marked
/// active.
pub open spec fn nav_entries(current: Route) -> Seq<NavEntry> {
    seq![
        NavEntry { target: Route::About, active: current == Route::About },
        NavEntry { target: Route::Resume, active: current == Route::Resume },
        NavEntry { target: Route::Projects, active: current == Route::Projects },
        NavEntry { target: Route::Contact, active: current == Route::Contact },
    ]
}

/// The sidebar: profile header with a monogram avatar, the navigation
/// list, and the "get in touch" block when the profile can be contacted.
pub struct SidebarVm {
    pub mobile: bool,
    pub open: bool,
    pub initials: String,
    pub name: String,
    pub title: String,
    pub nav: Vec<NavEntry>,
    pub get_in_touch: Option<ContactChannelsVm>,
}

/// The first character of each whitespace-separated word, scanning with
/// a flag that says whether the next non-space character starts a word.
pub open spec fn first_letters_from(s: Seq<char>, at_word_start: bool) -> Seq<char>
    decreases s.len(),
{
    if s.len() == 0 {
        Seq::empty()
    } else if is_unicode_space(s[0]) {
        first_letters_from(s.skip(1), true)
    } else if at_word_start {
        seq![s[0]] + first_letters_from(s.skip(1), false)
    } else {
        first_letters_from(s.skip(1), false)
    }
}

/// The first character of each whitespace-separated word of a name.
pub open spec fn first_letters(s: Seq<char>) -> Seq<char> {
    first_letters_from(s, true)
}

/// The avatar monogram: the uppercased first letters of the words of the
/// name.
fn initials_of_name(name: &str) -> (r: String)
    ensures
        r@ == upper_of(first_letters(name@)),
{
    let len = name.unicode_len();
    let mut letters = String::new();
    let mut word_start = true;
    let mut i: usize = 0;
    proof {
        assert(name@.skip(0) == name@);
    }
    while i < len
        invariant
            i <= len,
            len == name@.len(),
            first_letters(name@) == letters@ + first_letters_from(name@.skip(i as int), word_start),
        decreases len - i,
    {
        let c = name.get_char(i);
        assert(name@.skip(i as int)[0] == name@[i as int]);
        proof {
            assert(name@.skip(i as int).skip(1) =~= name@.skip(i + 1));
        }
        if char_is_space(c) {
            word_start = true;
        } else if word_start {
            proof {
                assert(letters@ + (seq![c] + first_letters_from(name@.skip(i + 1), false))
                    =~= letters@.push(c) + first_letters_from(name@.skip(i + 1), false));
            }
            push_char(&mut letters, c);
            word_start = false;
        }
        i = i + 1;
    }
    proof {
        assert(name@.skip(len as int).len() == 0);
        assert(letters@ + Seq::<char>::empty() =~= letters@);
    }
    to_upper(letters.as_str())
}

/// Renders the sidebar.
pub fn sidebar(props: SidebarProps) -> (r: SidebarVm)
    ensures
        r.mobile == props.is_mobile,
        r.open == props.is_open,
        r.initials@ == upper_of(first_letters(props.profile.name@)),
        r.name == props.profile.name,
        r.title == props.profile.title,
        r.nav@ == nav_entries(props.current_route),
        r.get_in_touch is Some <==> props.profile.has_any_contact_channel(),
        r.get_in_touch matches Some(g) ==> channels_match(
            g,
            props.profile.email,
            props.profile.linkedin,
            props.profile.github,
        ),
{
    let SidebarProps { profile, current_route, is_mobile, is_open } = props;
    let show_block = profile.show_get_in_touch();
    let Profile { name, title, email, phone: _, linkedin, github } = profile;
    let initials = initials_of_name(name.as_str());
    let mut nav: Vec<NavEntry> = Vec::new();
    nav.push(NavEntry { target: Route::About, active: current_route == Route::About });
    nav.push(NavEntry { target: Route::Resume, active: current_route == Route::Resume });
    nav.push(NavEntry { target: Route::Projects, active: current_route == Route::Projects });
    nav.push(NavEntry { target: Route::Contact, active: current_route == Route::Contact });
    proof {
        assert(nav@ =~= nav_entries(current_route));
    }
    let get_in_touch = if show_block {
        Some(contact_channels(email, linkedin, github))
    } else {
        None
    };
    SidebarVm { mobile: is_mobile, open: is_open, initials, name, title, nav, get_in_touch }
}

// ---------------------------------------------------------- Contact page
/// What the submit button shows in each status.
#[derive(Clone, Copy, Debug, PartialEq, Eq, Structural)]
pub enum ButtonFace {
    /// Ready to send.
    Send,
    /// Spinner while the request is in flight.
    Sending,
    /// The message went through.
    Sent,
    /// The last attempt failed; offer a retry.
    Retry,
}

/// The notice shown under the submit button, if any.
pub enum FormNotice {
    /// No notice.
    Hidden,
    /// The fixed thank-you text.
    SuccessText,
    /// The error text of the failed submission.
    ErrorText(String),
}

/// The contact form as displayed.
pub struct FormVm {
    pub name: String,
    pub email: String,
    pub phone: String,
    pub message: String,
    pub submit_disabled: bool,
    pub button: ButtonFace,
    pub notice: FormNotice,
}

/// The button face for each submission status.
pub open spec fn button_face(status: SubmissionState) -> ButtonFace {
    match status {
        SubmissionState::Idle => ButtonFace::Send,
        SubmissionState::Submitting => ButtonFace::Sending,
        SubmissionState::Success => ButtonFace::Sent,
        SubmissionState::Error(_) => ButtonFace::Retry,
    }
}

/// The form shows the current field values; the submit button is
/// disabled exactly while a submission is in flight; the notice mirrors
/// the submission status, quoting the error text verbatim.
pub open spec fn form_vm_matches(f: FormVm, form: ContactForm, status: SubmissionState) -> bool {
    &&& f.name == form.name
    &&& f.email == form.email
    &&& f.phone == form.phone
    &&& f.message == form.message
    &&& f.submit_disabled == (status is Submitting)
    &&& f.button == button_face(status)
    &&& match status {
        SubmissionState::Success => f.notice is SuccessText,
        SubmissionState::Error(m) => f.notice matches FormNotice::ErrorText(t) && t == m,
        _ => f.notice is Hidden,
    }
}

/// The Contact page: the form when the form feature is on, otherwise the
/// grid of contact-method cards.
pub struct ContactVm {
    pub form: Option<FormVm>,
    pub methods: Option<ContactChannelsVm>,
}

/// Renders the Contact page.
pub fn contact_view(
    profile: Profile,
    form: ContactForm,
    status: SubmissionState,
    form_enabled: bool,
) -> (r: ContactVm)
    ensures
        form_enabled ==> r.methods is None && (r.form matches Some(f) && form_vm_matches(
            f,
            form,
            status,
        )),
        !form_enabled ==> r.form is None && (r.methods matches Some(m) && channels_match(
            m,
            profile.email,
            profile.linkedin,
            profile.github,
        )),
        !form_enabled ==> (r.methods matches Some(m) && {
            &&& m.email is Some <==> profile.email is Some
            &&& m.linkedin is Some <==> profile.linkedin is Some
            &&& m.github is Some <==> profile.github is Some
        }),
{
    if form_enabled {
        let ContactForm { name, email, phone, message } = form;
        let submit_disabled = matches!(status, SubmissionState::Submitting);
        let button = match &status {
            SubmissionState::Idle => ButtonFace::Send,
            SubmissionState::Submitting => ButtonFace::Sending,
            SubmissionState::Success => ButtonFace::Sent,
            SubmissionState::Error(_) => ButtonFace::Retry,
        };
        let notice = match status {
            SubmissionState::Success => FormNotice::SuccessText,
            SubmissionState::Error(m) => FormNotice::ErrorText(m),
            _ => FormNotice::Hidden,
        };
        let vm = FormVm { name, email, phone, message, submit_disabled, button, notice };
        ContactVm { form: Some(vm), methods: None }
    } else {
        let Profile { name: _, title: _, email, phone: _, linkedin, github } = profile;
        ContactVm { form: None, methods: Some(contact_channels(email, linkedin, github)) }
    }
}

/// Law: a profile with no email, no phone, no LinkedIn and no GitHub
/// yields no "get in touch" block in the sidebar and no contact-method
/// card on the contact page.
pub proof fn law_no_channels_no_contact_ui(p: Profile, channels: ContactChannelsVm)
    requires
        p.email is None,
        p.phone is None,
        p.linkedin is None,
        p.github is None,
        channels_match(channels, p.email, p.linkedin, p.github),
    ensures
        !p.has_any_contact_channel(),
        channels.email is None,
        channels.linkedin is None,
        channels.github is None,
{
}

} // verus!
