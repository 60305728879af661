//! Content store: the immutable tables of display text behind the
//! panels — banner art, biography, education, projects, contributions,
//! experiences, publications and links.  Loaded once at startup and
//! never mutated; each table function pins every field of every record.

use vstd::prelude::*;

verus! {

/// Block-letter banner drawn above the tab bar.
pub const BANNER: &'static str = r#"
░        ░░  ░░░░  ░░        ░░  ░░░░  ░
▒  ▒▒▒▒▒▒▒▒   ▒▒   ▒▒▒▒▒  ▒▒▒▒▒  ▒▒▒▒  ▒
▓      ▓▓▓▓        ▓▓▓▓▓  ▓▓▓▓▓▓  ▓▓  ▓▓
█  ████████  █  █  █████  ███████    ███
█        ██  ████  ██        █████  ████
"#;

/// Lines the banner text spans; the banner band gets one row more.
pub const BANNER_ROWS: u16 = 6;

/// Biography shown in the first tab's upper panel.
pub const DESCRIPTION: &'static str = r#"Hi y’all, I'm Emirhan — a Rustacean v_(°v°)_v and senior Computer Engineering student at Yeditepe University, currently interning at smartPulse.

I’m into systems-level programming, distributed systems, P2P, and cryptography. Also a fan of F1, chess, photography, and cycling.
"#;

/// Notice shown instead of the tabbed view on a narrow mobile viewport.
pub const MOBILE_INFO: &'static str = r#"Not mobile-friendly

please use a desktop or
visit the mobile-friendly site.
"#;

/// Wide character art shown in the last tab.
pub const FERRIS_ART: &'static str = r#"                    +++ ++++++                           .+%@@%.                   .    .. :  .. .
               + +++++++++++++++++                     .+@@@@@@.                 ..   =. .---.=. +..:.=
              +++++++++++++++++++++++        ++       -%@@@@@@@:              .   .=...=.:+-=--:+--=.=..--:.
 ++++++    ++++++++++++++++++++++++++++    ++++ ++   .*@@@@@@@@@=   ......     .=.: :=:==:===++*+++*++=.-=--.
++++++++ +++++++++++++++++++++++++++++++++++++++++    ....#@@@@%*#%@@@@@@*     ..:=+:+==*++*=+*+*****++.=...
++++++++ ++++++++++++++++++++++++++++++++*+++++++           =#-%= +@@@@@@-  .-::-==+=+*+*****+*****=*+**++=+..:. 
 +++++++++++++++++++++++++++++++++++++++++++++++        .#@@@@@@@@@@@@#:   :==..=*+++*****************=****+:.   
    ++++++++++++++++=.+@#++*=.%#++++++++++++++         .-%@@@@@@@@@@#:       .-+**++***********************+*+=..
      ++++++++++++++#@@@@++#@@@@++++++++++++         .*=.%: =@@@@@@#:     .:-==-=+************************==+-:  
     ++++***+++++++++*%#*+++*##+++++++****++++     .++ .%: %+@@@@@@#:      -=-:-****************************+::.
      +++*####*****++++++#@#*+++****#####*+++    .=+   :-   .%*@@@@@@@%.     .:=++*****@*%**@+%*************-..
       ++++##     ################    ###+++   .=*      +=    .##%@#+*@:    ..:=++***********#***************+=-:.
         +++ #                        # ++*    %=               :#=..+%.       ..-**********************-+***+-.
           ++                          ++       .*-               -**#:             .. .-==-=:-......      ..
"#;

/// Title of the first tab's upper panel.
pub const WHOAMI_TITLE: &'static str = "whoami";

/// Title of the first tab's lower panel.
pub const EDUCATION_TITLE: &'static str = "Education";

/// Title of the second tab's upper panel.
pub const PROJECTS_TITLE: &'static str = "Projects";

/// Title of the second tab's lower panel.
pub const CONTRIBUTIONS_TITLE: &'static str = "Contributions";

/// Title of the third tab's upper panel.
pub const EXPERIENCES_TITLE: &'static str = "Experiences";

/// Title of the third tab's lower panel.
pub const PUBLICATIONS_TITLE: &'static str = "Publications";

/// Title of the links panel.
pub const LINKS_TITLE: &'static str = "Links";

/// Title of the last tab's panel.
pub const FERRIS_TITLE: &'static str = "Ferris, Ratatui and Unsafe Ferris";

/// Caption on the bottom border of the backdrop.
pub const BACKDROP_CAPTION: &'static str = "|built with Ratzilla|";

/// Title shown in the tab bar for tab `i`.
pub open spec fn spec_tab_title(i: int) -> Seq<char> {
    if i == 0 {
        "About Me"@
    } else if i == 1 {
        "Projects"@
    } else if i == 2 {
        "Experiences"@
    } else {
        "misc"@
    }
}

/// Returns the title of tab `i`.
pub fn tab_title(i: usize) -> (r: &'static str)
    requires
        i < crate::state::TAB_COUNT,
    ensures
        r@ == spec_tab_title(i as int),
{
    if i == 0 {
        "About Me"
    } else if i == 1 {
        "Projects"
    } else if i == 2 {
        "Experiences"
    } else {
        "misc"
    }
}

/// One education record.
pub struct EducationEntry {
    pub institution: String,
    pub program: String,
    pub score: String,
}

/// One project record.
pub struct ProjectEntry {
    pub name: String,
    pub summary: String,
}

/// One open-source contribution record.
pub struct ContributionEntry {
    pub project: String,
    pub summary: String,
    pub commits: String,
}

/// One work-experience record.
pub struct ExperienceEntry {
    pub company: String,
    pub role: String,
    pub period: String,
    pub first_highlight: String,
    pub second_highlight: String,
}

/// One publication record.
pub struct PublicationEntry {
    pub title: String,
    pub venue: String,
}

/// One link-panel record.
pub struct LinkEntry {
    pub label: String,
    pub url: String,
}

/// The education table.
pub fn education() -> (r: Vec<EducationEntry>)
    ensures
        r@.len() == 3,
        r@[0].institution@ == "Yeditepe University"@,
        r@[0].program@ == "B.Sc. in Computer Engineering"@,
        r@[0].score@ == "GPA: 3.87"@,
        r@[1].institution@ == "Yeditepe University"@,
        r@[1].program@ == "Minor in Economics"@,
        r@[1].score@ == "GPA: 3.70"@,
        r@[2].institution@ == "Hogeschool Utrecht"@,
        r@[2].program@ == "Exchange Program in Social Robotics"@,
        r@[2].score@ == "Score: 10/10"@,
{
    let mut r: Vec<EducationEntry> = Vec::new();
    r.push(
        EducationEntry {
            institution: "Yeditepe University".to_owned(),
            program: "B.Sc. in Computer Engineering".to_owned(),
            score: "GPA: 3.87".to_owned(),
        },
    );
    r.push(
        EducationEntry {
            institution: "Yeditepe University".to_owned(),
            program: "Minor in Economics".to_owned(),
            score: "GPA: 3.70".to_owned(),
        },
    );
    r.push(
        EducationEntry {
            institution: "Hogeschool Utrecht".to_owned(),
            program: "Exchange Program in Social Robotics".to_owned(),
            score: "Score: 10/10".to_owned(),
        },
    );
    r
}

/// The projects table.
pub fn projects() -> (r: Vec<ProjectEntry>)
    ensures
        r@.len() == 5,
        r@[0].name@ == "btc-vanity"@,
        r@[0].summary@ == "Bitcoin vanity address generator library + CLI. (+25,000 downloads!!)"@,
        r@[1].name@ == "deloxide"@,
        r@[1].summary@
            == "Scrubs your threads clean with real-time deadlock detection and built-in log insights."@,
        r@[2].name@ == "rlox-ast"@,
        r@[2].summary@ == "Lox language interpreter."@,
        r@[3].name@ == "RustyChain"@,
        r@[3].summary@ == "Basic blockchain implementation."@,
        r@[4].name@ == "AmongOS"@,
        r@[4].summary@ == "Small sussy operating system."@,
{
    let mut r: Vec<ProjectEntry> = Vec::new();
    r.push(
        ProjectEntry {
            name: "btc-vanity".to_owned(),
            summary: "Bitcoin vanity address generator library + CLI. (+25,000 downloads!!)".to_owned(),
        },
    );
    r.push(
        ProjectEntry {
            name: "deloxide".to_owned(),
            summary:
                "Scrubs your threads clean with real-time deadlock detection and built-in log insights.".to_owned(),
        },
    );
    r.push(ProjectEntry { name: "rlox-ast".to_owned(), summary: "Lox language interpreter.".to_owned() });
    r.push(
        ProjectEntry {
            name: "RustyChain".to_owned(),
            summary: "Basic blockchain implementation.".to_owned(),
        },
    );
    r.push(
        ProjectEntry { name: "AmongOS".to_owned(), summary: "Small sussy operating system.".to_owned() },
    );
    r
}

/// The contributions table.
pub fn contributions() -> (r: Vec<ContributionEntry>)
    ensures
        r@.len() == 1,
        r@[0].project@ == "Ratatui"@,
        r@[0].summary@ == "A Rust crate for cooking up terminal user interfaces (TUIs)"@,
        r@[0].commits@ == "13 Commits"@,
{
    let mut r: Vec<ContributionEntry> = Vec::new();
    r.push(
        ContributionEntry {
            project: "Ratatui".to_owned(),
            summary: "A Rust crate for cooking up terminal user interfaces (TUIs)".to_owned(),
            commits: "13 Commits".to_owned(),
        },
    );
    r
}

/// The experiences table.
pub fn experiences() -> (r: Vec<ExperienceEntry>)
    ensures
        r@.len() == 3,
        r@[0].company@ == "smartPulse Technology"@,
        r@[0].role@ == "Connectivity Intern"@,
        r@[0].period@ == "March 2025 – Still"@,
        r@[0].first_highlight@
            == "Implemented a internal device setup tool from start to finish using Rust and Ratatui."@,
        r@[0].second_highlight@
            == "Learned industrial communication protocols and basics of the energy production industry."@,
        r@[1].company@ == "HyperHawk Hyperloop Team"@,
        r@[1].role@ == "Co-Head of SWE Department"@,
        r@[1].period@ == "October 2024 – Still"@,
        r@[1].first_highlight@
            == "Directed the project's development strategy and structure, driving key decision-making processes."@,
        r@[1].second_highlight@ == "Developed and deployed MicroPython code for Raspberry Pi."@,
        r@[2].company@ == "HyperHawk Hyperloop Team"@,
        r@[2].role@ == "Software Engineer"@,
        r@[2].period@ == "November 2022  – October 2024"@,
        r@[2].first_highlight@
            == "Achieved 3rd place with the team in the International Teknofest Hyperloop Competition, 2023."@,
        r@[2].second_highlight@
            == "Developed and optimized Arduino and Raspberry Pi code using C++, C, and Golang."@,
{
    let mut r: Vec<ExperienceEntry> = Vec::new();
    r.push(
        ExperienceEntry {
            company: "smartPulse Technology".to_owned(),
            role: "Connectivity Intern".to_owned(),
            period: "March 2025 – Still".to_owned(),
            first_highlight:
                "Implemented a internal device setup tool from start to finish using Rust and Ratatui.".to_owned(),
            second_highlight:
                "Learned industrial communication protocols and basics of the energy production industry.".to_owned(),
        },
    );
    r.push(
        ExperienceEntry {
            company: "HyperHawk Hyperloop Team".to_owned(),
            role: "Co-Head of SWE Department".to_owned(),
            period: "October 2024 – Still".to_owned(),
            first_highlight:
                "Directed the project's development strategy and structure, driving key decision-making processes.".to_owned(),
            second_highlight: "Developed and deployed MicroPython code for Raspberry Pi.".to_owned(),
        },
    );
    r.push(
        ExperienceEntry {
            company: "HyperHawk Hyperloop Team".to_owned(),
            role: "Software Engineer".to_owned(),
            period: "November 2022  – October 2024".to_owned(),
            first_highlight:
                "Achieved 3rd place with the team in the International Teknofest Hyperloop Competition, 2023.".to_owned(),
            second_highlight:
                "Developed and optimized Arduino and Raspberry Pi code using C++, C, and Golang.".to_owned(),
        },
    );
    r
}

/// The publications table.
pub fn publications() -> (r: Vec<PublicationEntry>)
    ensures
        r@.len() == 1,
        r@[0].title@
            == "Ethnical Anthropomorphism in Human-Robot Interaction: Personalized Robot Tutors"@,
        r@[0].venue@ == "37th Bled eConference, 2024"@,
{
    let mut r: Vec<PublicationEntry> = Vec::new();
    r.push(
        PublicationEntry {
            title:
                "Ethnical Anthropomorphism in Human-Robot Interaction: Personalized Robot Tutors".to_owned(),
            venue: "37th Bled eConference, 2024".to_owned(),
        },
    );
    r
}

/// The links table.
pub fn links() -> (r: Vec<LinkEntry>)
    ensures
        r@.len() == 2,
        r@[0].label@ == "GitHub"@,
        r@[0].url@ == "https://github.com/Emivvvvv"@,
        r@[1].label@ == "Website"@,
        r@[1].url@ == "https://dev.emiv.online"@,
{
    let mut r: Vec<LinkEntry> = Vec::new();
    r.push(
        LinkEntry { label: "GitHub".to_owned(), url: "https://github.com/Emivvvvv".to_owned() },
    );
    r.push(
        LinkEntry { label: "Website".to_owned(), url: "https://dev.emiv.online".to_owned() },
    );
    r
}

} // verus!
