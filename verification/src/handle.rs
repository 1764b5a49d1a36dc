//! Key handling: each method does what the spec function of the same name
//! in [`crate::keys`] says.
use vstd::prelude::*;
use crate::github::split_full_name;
use crate::keys::{
    char_key, DETAIL_COMMITS, DETAIL_CONTRIBUTORS, DETAIL_PRS, MEMBER_ITEMS, cleared_details, commit_url_exec, commits_key, copy_notification,
    dashboard_browser, detail_scroll_exec, dirty_key, esc_key, feed_scroll_exec, find_repo_exec,
    fresh_repo_detail, fresh_user_detail, key_step, my_commits_key, my_prs_key, next_subview_exec,
    next_tab_exec, notifications_key, opened_repo, opened_user, pr_detail_action_exec,
    prev_subview_exec, prev_tab_exec, pull_url_exec, repo_filter_key, repos_key, review_key,
    screen_key, step_delta_exec, tabbed, unfocused_dashboard, unfocused_repo, user_filter_key,
    users_key, with_repos, with_users,
};
use crate::panel::{
    filter_members, filter_repos, filtered_members, filtered_repos,
    lemma_filtered_members_positions, lemma_filtered_repos_positions, move_within, reset_sel,
    FilterList,
};
use crate::state::{
    Action, App, CommitDetailView, DetailOrigin, Key, OrgSubview, PrDetailView, RepoDetailState,
    Screen, UserDetailState,
};
use crate::text::{append_str, chars_of, string_of};
use crate::types::RepoInfo;

verus! {

fn fresh_repo_state(full: String, info: Option<RepoInfo>) -> (d: RepoDetailState)
    ensures
        fresh_repo_detail(d, full, info),
{
    let unparsable = split_full_name(full.as_str()).is_none();
    let commits_err = if unparsable {
        let mut m = chars_of("could not parse owner/repo from ");
        append_str(&mut m, full.as_str());
        Some(string_of(&m))
    } else {
        None
    };
    RepoDetailState {
        full_name: full,
        info,
        commits: Vec::new(),
        commits_err,
        prs: Vec::new(),
        prs_err: None,
        contributors: Vec::new(),
        contributors_err: None,
        loaded: unparsable,
    }
}

fn fresh_user_state(login: String, no_org: bool) -> (d: UserDetailState)
    ensures
        fresh_user_detail(d, login, no_org),
{
    UserDetailState {
        login,
        commits: Vec::new(),
        commits_err: if no_org {
            Some("no org detected".to_string())
        } else {
            None
        },
        submitted_prs: Vec::new(),
        submitted_err: None,
        reviewed_prs: Vec::new(),
        reviewed_err: None,
    }
}

impl App {
    fn unfocus_dashboard(&mut self)
        ensures
            final(self).dashboard == unfocused_dashboard(old(self).dashboard),
            *final(self) == (App { dashboard: final(self).dashboard, ..*old(self) }),
    {
        self.dashboard.review.focused = false;
        self.dashboard.my_prs.focused = false;
        self.dashboard.notifications.focused = false;
        self.dashboard.my_commits.focused = false;
    }

    fn unfocus_repo(&mut self)
        ensures
            final(self).repo == unfocused_repo(old(self).repo),
            *final(self) == (App { repo: final(self).repo, ..*old(self) }),
    {
        self.repo.commits.focused = false;
        self.repo.dirty.focused = false;
        self.repo.diff = None;
    }

    fn clear_details(&mut self)
        ensures
            *final(self) == cleared_details(*old(self)),
    {
        self.repo_detail = None;
        self.commit_detail = None;
        self.user_detail = None;
        self.pr_detail = None;
        self.notification_detail = None;
    }

    /// Opens the detail of repository `full` (see [`opened_repo`]).
    pub fn open_repo_detail(&mut self, full: String) -> (act: Action)
        ensures
            opened_repo(*old(self), full, *final(self), act@),
    {
        let info = find_repo_exec(&self.org.repos.items, full.as_str());
        let act = match split_full_name(full.as_str()) {
            Some((o, r)) => Action::LoadRepoDetail {
                owner: o,
                repo: r,
                commits: DETAIL_COMMITS,
                prs: DETAIL_PRS,
                contributors: DETAIL_CONTRIBUTORS,
            },
            None => Action::Nothing,
        };
        self.repo_detail = Some(fresh_repo_state(full, info));
        self.screen = Screen::RepoDetail;
        act
    }

    /// Opens the detail of member `login` (see [`opened_user`]).
    pub fn open_user_detail(&mut self, login: String) -> (act: Action)
        ensures
            opened_user(*old(self), login, *final(self), act@),
    {
        let org: Option<String> = match &self.org.name {
            Some(o) => if o.as_str().is_empty() {
                None
            } else {
                Some(o.clone())
            },
            None => None,
        };
        let no_org = org.is_none();
        let act = match org {
            Some(o) => Action::LoadUserDetail { org: o, login: login.clone(), limit: MEMBER_ITEMS },
            None => Action::Nothing,
        };
        self.user_detail = Some(fresh_user_state(login, no_org));
        self.screen = Screen::UserDetail;
        act
    }

    fn commits_key(&mut self, k: Key) -> (act: Action)
        ensures
            commits_key(*old(self), k, *final(self), act@),
    {
        match step_delta_exec(k) {
            Some(d) => {
                self.repo.commits.step_kept(d);
                Action::Nothing
            },
            None => {
                if let Key::Enter = k {
                    match self.repo.commits.selected_index() {
                        Some(i) => Action::LoadCommitDetail {
                            sha: self.repo.commits.items[i].sha.clone(),
                        },
                        None => Action::Nothing,
                    }
                } else {
                    Action::Nothing
                }
            },
        }
    }

    fn dirty_key(&mut self, k: Key) -> (act: Action)
        ensures
            dirty_key(*old(self), k, *final(self), act@),
    {
        match step_delta_exec(k) {
            Some(d) => {
                self.repo.dirty.step_kept(d);
                Action::Nothing
            },
            None => {
                if let Key::Enter = k {
                    match self.repo.dirty.selected_index() {
                        Some(i) => Action::LoadDiff {
                            path: self.repo.dirty.items[i].path.clone(),
                            status: self.repo.dirty.items[i].status.clone(),
                        },
                        None => Action::Nothing,
                    }
                } else {
                    Action::Nothing
                }
            },
        }
    }

    fn review_key(&mut self, k: Key) -> (act: Action)
        ensures
            review_key(*old(self), k, *final(self), act@),
    {
        match step_delta_exec(k) {
            Some(d) => {
                self.dashboard.review.step_kept(d);
                Action::Nothing
            },
            None => {
                if let Key::Enter = k {
                    match self.dashboard.review.selected_index() {
                        Some(i) => {
                            let p = &self.dashboard.review.items[i];
                            pr_detail_action_exec(&p.repo, p.number)
                        },
                        None => Action::Nothing,
                    }
                } else {
                    Action::Nothing
                }
            },
        }
    }

    fn my_prs_key(&mut self, k: Key) -> (act: Action)
        ensures
            my_prs_key(*old(self), k, *final(self), act@),
    {
        match step_delta_exec(k) {
            Some(d) => {
                self.dashboard.my_prs.step_cleared(d);
                Action::Nothing
            },
            None => {
                if let Key::Enter = k {
                    match self.dashboard.my_prs.selected_index() {
                        Some(i) => {
                            let p = &self.dashboard.my_prs.items[i];
                            pr_detail_action_exec(&p.repo, p.number)
                        },
                        None => Action::Nothing,
                    }
                } else {
                    Action::Nothing
                }
            },
        }
    }

    fn notifications_key(&mut self, k: Key) -> (act: Action)
        ensures
            notifications_key(*old(self), k, *final(self), act@),
    {
        match step_delta_exec(k) {
            Some(d) => {
                self.dashboard.notifications.step_cleared(d);
            },
            None => {
                if let Key::Enter = k {
                    match self.dashboard.notifications.selected_index() {
                        Some(i) => {
                            let n = copy_notification(&self.dashboard.notifications.items[i]);
                            self.notification_detail = Some(n);
                            self.screen = Screen::NotificationDetail;
                        },
                        None => {},
                    }
                }
            },
        }
        Action::Nothing
    }

    fn my_commits_key(&mut self, k: Key) -> (act: Action)
        ensures
            my_commits_key(*old(self), k, *final(self), act@),
    {
        match step_delta_exec(k) {
            Some(d) => {
                self.dashboard.my_commits.step_cleared(d);
                Action::Nothing
            },
            None => {
                if let Key::Enter = k {
                    match self.dashboard.my_commits.selected_index() {
                        Some(i) => {
                            let c = &self.dashboard.my_commits.items[i];
                            match split_full_name(c.repo.as_str()) {
                                Some((o, r)) => Action::LoadOrgCommitDetail {
                                    owner: o,
                                    repo: r,
                                    sha: c.sha.clone(),
                                },
                                None => Action::Nothing,
                            }
                        },
                        None => Action::Nothing,
                    }
                } else {
                    Action::Nothing
                }
            },
        }
    }

    fn repos_key(&mut self, k: Key) -> (act: Action)
        ensures
            repos_key(*old(self), k, *final(self), act@),
    {
        let idx = filter_repos(&self.org.repos.items, self.org.repos.filter.as_slice());
        proof {
            lemma_filtered_repos_positions(self.org.repos.items@, self.org.repos.filter@);
        }
        match step_delta_exec(k) {
            Some(d) => {
                let n = idx.len();
                if n > 0 {
                    self.org.repos.selected = move_within(self.org.repos.selected, n, d);
                } else {
                    self.org.repos.selected = None;
                }
                Action::Nothing
            },
            None => {
                let slash = match k {
                    Key::Char(c) => c == '/',
                    _ => false,
                };
                if slash {
                    self.org.repos.filtering = true;
                    Action::Nothing
                } else if let Key::Enter = k {
                    match crate::panel::checked_index(self.org.repos.selected, idx.len()) {
                        Some(s) => {
                            let actual = idx[s];
                            let full = self.org.repos.items[actual].full_name.clone();
                            self.open_repo_detail(full)
                        },
                        None => Action::Nothing,
                    }
                } else {
                    Action::Nothing
                }
            },
        }
    }

    fn users_key(&mut self, k: Key) -> (act: Action)
        ensures
            users_key(*old(self), k, *final(self), act@),
    {
        let idx = filter_members(&self.org.users.items, self.org.users.filter.as_slice());
        proof {
            lemma_filtered_members_positions(self.org.users.items@, self.org.users.filter@);
        }
        match step_delta_exec(k) {
            Some(d) => {
                let n = idx.len();
                if n > 0 {
                    self.org.users.selected = move_within(self.org.users.selected, n, d);
                } else {
                    self.org.users.selected = None;
                }
                Action::Nothing
            },
            None => {
                let slash = match k {
                    Key::Char(c) => c == '/',
                    _ => false,
                };
                if slash {
                    self.org.users.filtering = true;
                    Action::Nothing
                } else if let Key::Enter = k {
                    match crate::panel::checked_index(self.org.users.selected, idx.len()) {
                        Some(s) => {
                            let actual = idx[s];
                            let login = self.org.users.items[actual].login.clone();
                            self.open_user_detail(login)
                        },
                        None => Action::Nothing,
                    }
                } else {
                    Action::Nothing
                }
            },
        }
    }
    fn screen_key(&mut self, k: Key) -> (act: Action)
        ensures
            screen_key(*old(self), k, *final(self), act@),
    {
        match self.screen {
            Screen::Repo => {
                if self.repo.commits.focused {
                    self.commits_key(k)
                } else if self.repo.dirty.focused {
                    self.dirty_key(k)
                } else {
                    Action::Nothing
                }
            },
            Screen::Dashboard => {
                if self.dashboard.review.focused {
                    self.review_key(k)
                } else if self.dashboard.my_prs.focused {
                    self.my_prs_key(k)
                } else if self.dashboard.notifications.focused {
                    self.notifications_key(k)
                } else if self.dashboard.my_commits.focused {
                    self.my_commits_key(k)
                } else {
                    Action::Nothing
                }
            },
            Screen::CommitDetail => {
                match &mut self.commit_detail {
                    Some(v) => {
                        match detail_scroll_exec(k, v.scroll) {
                            Some(x) => {
                                v.scroll = x;
                            },
                            None => {},
                        }
                    },
                    None => {},
                }
                Action::Nothing
            },
            Screen::PrDetail => {
                match &mut self.pr_detail {
                    Some(v) => {
                        match detail_scroll_exec(k, v.scroll) {
                            Some(x) => {
                                v.scroll = x;
                            },
                            None => {},
                        }
                    },
                    None => {},
                }
                Action::Nothing
            },
            Screen::Org => {
                match self.org.subview {
                    OrgSubview::Activity => {
                        match feed_scroll_exec(k, self.org.scroll, &self.org.activity) {
                            Some(x) => {
                                self.org.scroll = x;
                            },
                            None => {},
                        }
                        Action::Nothing
                    },
                    OrgSubview::Repos => self.repos_key(k),
                    OrgSubview::Users => self.users_key(k),
                }
            },
            _ => Action::Nothing,
        }
    }

    fn esc_key(&mut self) -> (act: Action)
        ensures
            esc_key(*old(self), *final(self), act@),
    {
        match self.screen {
            Screen::RepoDetail => {
                self.repo_detail = None;
                self.screen = Screen::Org;
                self.org.subview = OrgSubview::Repos;
                Action::Nothing
            },
            Screen::CommitDetail => {
                let back = match &self.commit_detail {
                    Some(v) => match v.origin {
                        DetailOrigin::Repo => Screen::Repo,
                        DetailOrigin::Dashboard => Screen::Dashboard,
                    },
                    None => Screen::Repo,
                };
                self.commit_detail = None;
                self.screen = back;
                Action::Nothing
            },
            Screen::UserDetail => {
                self.user_detail = None;
                self.screen = Screen::Org;
                self.org.subview = OrgSubview::Users;
                Action::Nothing
            },
            Screen::PrDetail => {
                self.pr_detail = None;
                self.screen = Screen::Dashboard;
                Action::Nothing
            },
            Screen::NotificationDetail => {
                self.notification_detail = None;
                self.screen = Screen::Dashboard;
                Action::Nothing
            },
            Screen::Repo => {
                if self.repo.commits.focused {
                    self.repo.commits.focused = false;
                    Action::Nothing
                } else if self.repo.dirty.focused {
                    if self.repo.diff.is_some() {
                        self.repo.diff = None;
                    } else {
                        self.repo.dirty.focused = false;
                    }
                    Action::Nothing
                } else {
                    Action::Quit
                }
            },
            Screen::Dashboard => {
                let d = &self.dashboard;
                if d.review.focused || d.my_prs.focused || d.notifications.focused
                    || d.my_commits.focused {
                    self.unfocus_dashboard();
                    Action::Nothing
                } else {
                    Action::Quit
                }
            },
            Screen::Org => Action::Quit,
        }
    }

    fn dashboard_browser_exec(&self) -> (act: Action)
        ensures
            act@ == dashboard_browser(self.dashboard),
    {
        let d = &self.dashboard;
        if d.review.focused {
            match d.review.selected_index() {
                Some(i) => Action::OpenBrowser {
                    url: pull_url_exec(&d.review.items[i].repo, d.review.items[i].number),
                },
                None => Action::Nothing,
            }
        } else if d.my_prs.focused {
            match d.my_prs.selected_index() {
                Some(i) => Action::OpenBrowser {
                    url: pull_url_exec(&d.my_prs.items[i].repo, d.my_prs.items[i].number),
                },
                None => Action::Nothing,
            }
        } else if d.notifications.focused {
            match d.notifications.selected_index() {
                Some(i) => Action::OpenBrowser { url: d.notifications.items[i].web_url.clone() },
                None => Action::Nothing,
            }
        } else if d.my_commits.focused {
            match d.my_commits.selected_index() {
                Some(i) => Action::OpenBrowser {
                    url: commit_url_exec(&d.my_commits.items[i].repo, &d.my_commits.items[i].sha),
                },
                None => Action::Nothing,
            }
        } else {
            Action::Nothing
        }
    }

    fn tab_to(&mut self, s: Screen)
        ensures
            *final(self) == tabbed(*old(self), s),
    {
        self.clear_details();
        self.unfocus_repo();
        self.unfocus_dashboard();
        self.screen = s;
    }

    fn char_key(&mut self, c: char) -> (act: Action)
        ensures
            char_key(*old(self), c, *final(self), act@),
    {
        if c == 'q' {
            Action::Quit
        } else if c == 'r' {
            Action::Reload
        } else if c == '1' {
            self.clear_details();
            self.unfocus_repo();
            self.screen = Screen::Dashboard;
            Action::Nothing
        } else if c == '2' {
            self.clear_details();
            self.unfocus_dashboard();
            self.screen = Screen::Repo;
            Action::Nothing
        } else if c == '3' {
            self.tab_to(Screen::Org);
            Action::Nothing
        } else if c == ']' && self.screen == Screen::Org {
            self.org.subview = next_subview_exec(self.org.subview);
            Action::Nothing
        } else if c == '[' && self.screen == Screen::Org {
            self.org.subview = prev_subview_exec(self.org.subview);
            Action::Nothing
        } else if c == 'c' && self.screen == Screen::Repo {
            if self.repo.commits.items.len() > 0 {
                self.repo.commits.focus();
                self.repo.dirty.focused = false;
                self.repo.diff = None;
            }
            Action::Nothing
        } else if c == 'd' && self.screen == Screen::Repo {
            if self.repo.dirty.items.len() > 0 {
                self.repo.dirty.focus();
                self.repo.commits.focused = false;
            }
            Action::Nothing
        } else if c == 'v' && self.screen == Screen::Dashboard {
            if self.dashboard.review.items.len() > 0 {
                self.unfocus_dashboard();
                self.dashboard.review.focus();
            }
            Action::Nothing
        } else if c == 'p' && self.screen == Screen::Dashboard {
            if self.dashboard.my_prs.items.len() > 0 {
                self.unfocus_dashboard();
                self.dashboard.my_prs.focus();
            }
            Action::Nothing
        } else if c == 'n' && self.screen == Screen::Dashboard {
            if self.dashboard.notifications.items.len() > 0 {
                self.unfocus_dashboard();
                self.dashboard.notifications.focus();
            }
            Action::Nothing
        } else if c == 'c' && self.screen == Screen::Dashboard {
            if self.dashboard.my_commits.items.len() > 0 {
                self.unfocus_dashboard();
                self.dashboard.my_commits.focus();
            }
            Action::Nothing
        } else if c == 'o' && self.screen == Screen::Dashboard {
            self.dashboard_browser_exec()
        } else if c == 'o' && self.screen == Screen::PrDetail {
            match &self.pr_detail {
                Some(v) => match &v.detail {
                    Some(d) => Action::OpenBrowser { url: d.url.clone() },
                    None => Action::Nothing,
                },
                None => Action::Nothing,
            }
        } else if c == 'o' && self.screen == Screen::NotificationDetail {
            match &self.notification_detail {
                Some(n) => Action::OpenBrowser { url: n.web_url.clone() },
                None => Action::Nothing,
            }
        } else {
            self.screen_key(Key::Char(c))
        }
    }

    fn repo_filter_key(&mut self, k: Key)
        ensures
            repo_filter_key(*old(self), k, *final(self)),
    {
        match k {
            Key::Esc => {
                self.org.repos.filter = Vec::new();
                self.org.repos.filtering = false;
                self.reset_repo_selection();
            },
            Key::Enter => {
                self.org.repos.filtering = false;
            },
            Key::Backspace => {
                self.org.repos.filter.pop();
                self.reset_repo_selection();
            },
            Key::Char(c) => {
                self.org.repos.filter.push(c);
                self.reset_repo_selection();
            },
            _ => {},
        }
    }

    fn reset_repo_selection(&mut self)
        ensures
            *final(self) == with_repos(
                *old(self),
                FilterList {
                    selected: reset_sel(
                        filtered_repos(old(self).org.repos.items@, old(self).org.repos.filter@),
                    ),
                    ..old(self).org.repos
                },
            ),
    {
        let idx = filter_repos(&self.org.repos.items, self.org.repos.filter.as_slice());
        self.org.repos.selected = if idx.len() == 0 {
            None
        } else {
            Some(0)
        };
    }

    fn user_filter_key(&mut self, k: Key)
        ensures
            user_filter_key(*old(self), k, *final(self)),
    {
        match k {
            Key::Esc => {
                self.org.users.filter = Vec::new();
                self.org.users.filtering = false;
                self.reset_user_selection();
            },
            Key::Enter => {
                self.org.users.filtering = false;
            },
            Key::Backspace => {
                self.org.users.filter.pop();
                self.reset_user_selection();
            },
            Key::Char(c) => {
                self.org.users.filter.push(c);
                self.reset_user_selection();
            },
            _ => {},
        }
    }

    fn reset_user_selection(&mut self)
        ensures
            *final(self) == with_users(
                *old(self),
                FilterList {
                    selected: reset_sel(
                        filtered_members(old(self).org.users.items@, old(self).org.users.filter@),
                    ),
                    ..old(self).org.users
                },
            ),
    {
        let idx = filter_members(&self.org.users.items, self.org.users.filter.as_slice());
        self.org.users.selected = if idx.len() == 0 {
            None
        } else {
            Some(0)
        };
    }

    /// Handles a key press: the state moves as [`key_step`] says, and the
    /// returned action is the outside work to do next.
    pub fn handle_key(&mut self, k: Key) -> (act: Action)
        ensures
            key_step(*old(self), k, *final(self), act@),
    {
        if self.screen == Screen::Org && self.org.subview == OrgSubview::Repos
            && self.org.repos.filtering {
            self.repo_filter_key(k);
            Action::Nothing
        } else if self.screen == Screen::Org && self.org.subview == OrgSubview::Users
            && self.org.users.filtering {
            self.user_filter_key(k);
            Action::Nothing
        } else {
            match k {
                Key::Char(c) => self.char_key(c),
                Key::Esc => self.esc_key(),
                Key::Tab | Key::Right => {
                    let s = next_tab_exec(self.screen);
                    self.tab_to(s);
                    Action::Nothing
                },
                Key::BackTab | Key::Left => {
                    let s = prev_tab_exec(self.screen);
                    self.tab_to(s);
                    Action::Nothing
                },
                _ => self.screen_key(k),
            }
        }
    }
}

} // verus!
