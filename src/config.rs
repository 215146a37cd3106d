use vstd::prelude::*;
use vstd::string::*;

verus! {

/// The settings as plain values.
pub struct ConfigView {
    pub assetto_path: Seq<char>,
    pub login: Seq<char>,
    pub installed_mods_md5: Seq<Seq<char>>,
    pub password: Seq<char>,
}

/// The persisted settings: where the application is installed, the account
/// used to log in, and the checksums of the mods already installed.
#[derive(Debug, Default)]
pub struct Config {
    pub assetto_path: String,
    pub login: String,
    pub installed_mods_md5: Vec<String>,
    pub password: String,
}

impl View for Config {
    type V = ConfigView;

    open spec fn view(&self) -> ConfigView {
        ConfigView {
            assetto_path: self.assetto_path@,
            login: self.login@,
            installed_mods_md5: self.installed_mods_md5.deep_view(),
            password: self.password@,
        }
    }
}

/// The installed-mods record after `md5` was marked installed: a checksum
/// already in it is not added a second time.
pub open spec fn with_installed(installed: Seq<Seq<char>>, md5: Seq<char>) -> Seq<Seq<char>> {
    if installed.contains(md5) {
        installed
    } else {
        installed.push(md5)
    }
}

/// Marking a mod installed a second time has no further effect.
pub proof fn lemma_mark_installed_idempotent(installed: Seq<Seq<char>>, md5: Seq<char>)
    ensures
        with_installed(with_installed(installed, md5), md5) == with_installed(installed, md5),
        with_installed(installed, md5).contains(md5),
{
    if !installed.contains(md5) {
        assert(installed.push(md5)[installed.len() as int] == md5);
    }
}

/// Operations on the settings of a configuration file.
pub trait ConfigTrait: Sized {
    /// The settings held.
    spec fn settings(&self) -> ConfigView;

    /// The path of the file the settings belong to.
    spec fn file_path(&self) -> Seq<char>;

    /// Takes the settings read from the file at `path`.
    fn new(path: &str, config: Config) -> (r: Self)
        ensures
            r.settings() == config@,
            r.file_path() == path@,
    ;

    /// Marks a mod installed; marking it a second time changes nothing.
    fn add_installed_mod(&mut self, md5: &String)
        ensures
            final(self).settings() == (ConfigView {
                installed_mods_md5: with_installed(old(self).settings().installed_mods_md5, md5@),
                ..old(self).settings()
            }),
            final(self).file_path() == old(self).file_path(),
    ;

    /// Whether a mod with this checksum is recorded as installed.
    fn is_mod_installed(&self, md5: &String) -> (r: bool)
        ensures
            r == self.settings().installed_mods_md5.contains(md5@),
    ;

    fn set_assetto_path(&mut self, path: String)
        ensures
            final(self).settings() == (ConfigView { assetto_path: path@, ..old(self).settings() }),
            final(self).file_path() == old(self).file_path(),
    ;

    fn set_login(&mut self, login: String)
        ensures
            final(self).settings() == (ConfigView { login: login@, ..old(self).settings() }),
            final(self).file_path() == old(self).file_path(),
    ;

    fn set_password(&mut self, password: String)
        ensures
            final(self).settings() == (ConfigView { password: password@, ..old(self).settings() }),
            final(self).file_path() == old(self).file_path(),
    ;
}

/// The settings together with the path of the file they are kept in.
pub struct ConfigObject {
    pub config: Config,
    pub path: String,
}

impl ConfigTrait for ConfigObject {
    open spec fn settings(&self) -> ConfigView {
        self.config@
    }

    open spec fn file_path(&self) -> Seq<char> {
        self.path@
    }

    fn new(path: &str, config: Config) -> (r: ConfigObject) {
        ConfigObject { config, path: String::from_str(path) }
    }

    fn add_installed_mod(&mut self, md5: &String) {
        let installed = self.is_mod_installed(md5);
        if !installed {
            self.config.installed_mods_md5.push(md5.clone());
            assert(self.config.installed_mods_md5.deep_view() =~= with_installed(
                old(self).config.installed_mods_md5.deep_view(),
                md5@,
            ));
        }
    }

    fn is_mod_installed(&self, md5: &String) -> (r: bool) {
        let list: &Vec<String> = &self.config.installed_mods_md5;
        let mut i: usize = 0;
        while i < list.len()
            invariant
                0 <= i <= list.len(),
                list.deep_view() == self.settings().installed_mods_md5,
                forall|j: int| 0 <= j < i ==> list.deep_view()[j] != md5@,
            decreases list.len() - i,
        {
            if *md5 == list[i] {
                assert(list.deep_view()[i as int] == md5@);
                assert(list.deep_view().contains(md5@));
                return true;
            }
            i = i + 1;
        }
        assert(!list.deep_view().contains(md5@));
        false
    }

    fn set_assetto_path(&mut self, path: String) {
        self.config.assetto_path = path;
    }

    fn set_login(&mut self, login: String) {
        self.config.login = login;
    }

    fn set_password(&mut self, password: String) {
        self.config.password = password;
    }
}

} // verus!
