//! The application's identity and directories.
use vstd::prelude::*;
use crate::app_core::configuration::Configuration;
use crate::process::owned;
use crate::text::{join, join_path};

verus! {

/// What the application knows of its user and directories.
pub struct App {
    pub app_dir: String,
    pub config_file: String,
    pub config: Configuration,
    pub username: String,
    pub groupname: String,
    pub home_dir: String,
    pub nginx_files_path: String,
    pub uid: u32,
    pub gid: u32,
}

/// The directories of the application under a home directory.
pub struct Layout {
    /// `<home>/.config/valex`.
    pub app_dir: String,
    /// `<app dir>/config.json5`.
    pub config_file: String,
    /// `<app dir>/nginx`: the site configurations.
    pub nginx_files_path: String,
}

/// A step in preparing the application's directories.
pub enum DirStep {
    /// Create the directory and its missing parents.
    Create(String),
    /// Give the directory to this user id and group id.
    Chown(String, u32, u32),
}

/// The content of a [`DirStep`].
pub enum DirStepView {
    Create(Seq<char>),
    Chown(Seq<char>, u32, u32),
}

impl View for DirStep {
    type V = DirStepView;

    open spec fn view(&self) -> DirStepView {
        match self {
            DirStep::Create(d) => DirStepView::Create(d@),
            DirStep::Chown(d, u, g) => DirStepView::Chown(d@, *u, *g),
        }
    }
}

/// The contents of a list of steps.
pub open spec fn steps_view(s: Seq<DirStep>) -> Seq<DirStepView> {
    s.map_values(|d: DirStep| d@)
}

/// Preparing the directories: create the application directory, give it to
/// the user when running under `sudo`, then create the site directory.
pub open spec fn dir_steps_spec(home: Seq<char>, under_sudo: bool, uid: u32, gid: u32) -> Seq<DirStepView> {
    let app_dir = app_dir_spec(home);
    seq![DirStepView::Create(app_dir)] + (if under_sudo {
        seq![DirStepView::Chown(app_dir, uid, gid)]
    } else {
        Seq::empty()
    }) + seq![DirStepView::Create(join_path(app_dir, "nginx"@))]
}

/// `<home>/.config/valex`.
pub open spec fn app_dir_spec(home: Seq<char>) -> Seq<char> {
    join_path(join_path(home, ".config"@), "valex"@)
}

impl App {
    /// The application's directories under `home_dir`.
    pub fn layout(home_dir: &str) -> (l: Layout)
        ensures
            l.app_dir@ == app_dir_spec(home_dir@),
            l.config_file@ == join_path(app_dir_spec(home_dir@), "config.json5"@),
            l.nginx_files_path@ == join_path(app_dir_spec(home_dir@), "nginx"@),
    {
        let config_dir = join(home_dir, ".config");
        let app_dir = join(config_dir.as_str(), "valex");
        let config_file = join(app_dir.as_str(), "config.json5");
        let nginx_files_path = join(app_dir.as_str(), "nginx");
        Layout { app_dir, config_file, nginx_files_path }
    }

    /// The application for a user, with its directories under `home_dir`.
    pub fn new(
        config: Configuration,
        username: String,
        groupname: String,
        home_dir: String,
        uid: u32,
        gid: u32,
    ) -> (app: App)
        ensures
            app.app_dir@ == app_dir_spec(home_dir@),
            app.config_file@ == join_path(app_dir_spec(home_dir@), "config.json5"@),
            app.nginx_files_path@ == join_path(app_dir_spec(home_dir@), "nginx"@),
            app.home_dir@ == home_dir@,
            app.username@ == username@,
            app.groupname@ == groupname@,
            app.uid == uid,
            app.gid == gid,
            app.config == config,
    {
        let l = Self::layout(home_dir.as_str());
        App {
            app_dir: l.app_dir,
            config_file: l.config_file,
            config,
            username,
            groupname,
            home_dir,
            nginx_files_path: l.nginx_files_path,
            uid,
            gid,
        }
    }

    /// The steps that prepare the application's directories under
    /// `home_dir`, for the user `uid`:`gid` when running under `sudo`.
    pub fn dir_steps(home_dir: &str, under_sudo: bool, uid: u32, gid: u32) -> (s: Vec<DirStep>)
        ensures
            steps_view(s@) == dir_steps_spec(home_dir@, under_sudo, uid, gid),
    {
        let l = Self::layout(home_dir);
        let mut s: Vec<DirStep> = Vec::new();
        s.push(DirStep::Create(owned(l.app_dir.as_str())));
        if under_sudo {
            s.push(DirStep::Chown(owned(l.app_dir.as_str()), uid, gid));
        }
        s.push(DirStep::Create(l.nginx_files_path));
        assert(steps_view(s@) =~= dir_steps_spec(home_dir@, under_sudo, uid, gid));
        s
    }

    /// Whether the new directories must be given back to the user: when the
    /// program runs under `sudo` (`SUDO_USER` is set).
    pub fn needs_chown(sudo_user: Option<&str>) -> (b: bool)
        ensures
            b == (sudo_user is Some),
    {
        sudo_user.is_some()
    }
}

} // verus!
