//! The decisions of a run: where the configuration lives, what is fetched,
//! what the clip is called and where it goes.
use vstd::prelude::*;
use vstd::string::StringExecFns;

verus! {

/// Settings read from the configuration file.
pub struct JadlConfig {
    /// The flashcard tool's media folder, if one is set.
    pub anki_dir: Option<String>,
    /// Where clips go otherwise.
    pub dest_dir: String,
}

/// The command line of a run.
pub struct Cli {
    /// The word in kanji.
    pub kanji: String,
    /// The word's reading.
    pub kana: String,
    /// Overwrite a clip that is already saved.
    pub force: bool,
    /// Save into the flashcard tool's media folder.
    pub anki: bool,
    /// Put a "[sound:...]" tag for the clip on the clipboard.
    pub copy: bool,
}

/// A run that cannot start.
#[derive(Clone, Copy, Debug, PartialEq, Eq, Structural)]
pub enum SetupError {
    /// The flashcard folder was asked for and the configuration has none.
    MissingAnkiDir,
    /// The destination already holds the clip and overwriting was not asked.
    AlreadyExists,
}

/// The text of an optional string.
pub open spec fn opt_view(o: Option<String>) -> Option<Seq<char>> {
    match o {
        Some(s) => Some(s@),
        None => None,
    }
}

pub open spec fn config_path_spec(xdg: Option<Seq<char>>, home: Option<Seq<char>>) -> Option<
    Seq<char>,
> {
    match xdg {
        Some(x) => Some(x),
        None => match home {
            Some(h) => Some(h + "/.config/jadl/config.toml"@),
            None => None,
        },
    }
}

/// Where the configuration file is read from: the value of
/// `XDG_CONFIG_HOME` when it is set, else the file under `HOME`'s `.config`.
pub fn config_path(xdg: Option<String>, home: Option<String>) -> (r: Option<String>)
    ensures
        opt_view(r) == config_path_spec(opt_view(xdg), opt_view(home)),
{
    match xdg {
        Some(x) => Some(x),
        None => match home {
            Some(h) => {
                let mut p = h;
                p.append("/.config/jadl/config.toml");
                Some(p)
            },
            None => None,
        },
    }
}

/// The settings used when no configuration file can be read: no flashcard
/// folder, clips saved in the home directory.
pub fn default_config(home: String) -> (r: JadlConfig)
    ensures
        r.anki_dir is None,
        r.dest_dir@ == home@,
{
    JadlConfig { anki_dir: None, dest_dir: home }
}

pub open spec fn audio_url_spec(kanji: Seq<char>, kana: Seq<char>) -> Seq<char> {
    "https://assets.languagepod101.com/dictionary/japanese/audiomp3.php?kana="@ + kana
        + "&kanji="@ + kanji
}

/// The address the clip for a word is fetched from.
pub fn audio_url(kanji: &str, kana: &str) -> (r: String)
    ensures
        r@ == audio_url_spec(kanji@, kana@),
{
    let mut u = String::from_str(
        "https://assets.languagepod101.com/dictionary/japanese/audiomp3.php?kana=",
    );
    u.append(kana);
    u.append("&kanji=");
    u.append(kanji);
    u
}

pub open spec fn audio_filename_spec(kanji: Seq<char>, kana: Seq<char>) -> Seq<char> {
    kanji + "("@ + kana + ").mp3"@
}

/// The clip's file name: the kanji, then the reading in parentheses.
pub fn audio_filename(kanji: &str, kana: &str) -> (r: String)
    ensures
        r@ == audio_filename_spec(kanji@, kana@),
{
    let mut f = String::from_str(kanji);
    f.append("(");
    f.append(kana);
    f.append(").mp3");
    f
}

/// The flashcard tool's tag that plays the clip.
pub fn sound_tag(filename: &str) -> (r: String)
    ensures
        r@ == "[sound:"@ + filename@ + "]"@,
{
    let mut t = String::from_str("[sound:");
    t.append(filename);
    t.append("]");
    t
}

/// The folder the clip is saved in: the flashcard folder when it is asked
/// for, which the configuration must then hold, else the usual destination.
pub fn dest_dir(anki: bool, config: &JadlConfig) -> (r: Result<String, SetupError>)
    ensures
        anki && config.anki_dir is Some ==> r is Ok && r->Ok_0@ == config.anki_dir->Some_0@,
        anki && config.anki_dir is None ==> r == Err::<String, SetupError>(
            SetupError::MissingAnkiDir,
        ),
        !anki ==> r is Ok && r->Ok_0@ == config.dest_dir@,
{
    if anki {
        match &config.anki_dir {
            Some(d) => Ok(d.clone()),
            None => Err(SetupError::MissingAnkiDir),
        }
    } else {
        Ok(config.dest_dir.clone())
    }
}

/// Whether the run may write the destination: a clip already there is
/// overwritten only when forced.
pub fn check_overwrite(dest_exists: bool, force: bool) -> (r: Result<(), SetupError>)
    ensures
        r is Ok <==> (!dest_exists || force),
        r is Err ==> r == Err::<(), SetupError>(SetupError::AlreadyExists),
{
    if dest_exists && !force {
        Err(SetupError::AlreadyExists)
    } else {
        Ok(())
    }
}

/// What a run fetches and where it puts it.
pub struct RunPlan {
    pub url: String,
    pub filename: String,
    /// The folder the clip is saved in.
    pub dest_dir: String,
    /// The tag to put on the clipboard, when asked for.
    pub clipboard: Option<String>,
}

/// Plans a run from its command line and settings. It fails only when the
/// flashcard folder is asked for and not configured.
pub fn plan(cli: &Cli, config: &JadlConfig) -> (r: Result<RunPlan, SetupError>)
    ensures
        r is Err <==> (cli.anki && config.anki_dir is None),
        r is Err ==> r == Err::<RunPlan, SetupError>(SetupError::MissingAnkiDir),
        r matches Ok(p) ==> {
            &&& p.url@ == audio_url_spec(cli.kanji@, cli.kana@)
            &&& p.filename@ == audio_filename_spec(cli.kanji@, cli.kana@)
            &&& p.dest_dir@ == if cli.anki {
                config.anki_dir->Some_0@
            } else {
                config.dest_dir@
            }
            &&& cli.copy ==> (p.clipboard matches Some(t) && t@ == "[sound:"@ + p.filename@ + "]"@)
            &&& !cli.copy ==> p.clipboard is None
        },
{
    let dir = match dest_dir(cli.anki, config) {
        Ok(d) => d,
        Err(e) => {
            return Err(e);
        },
    };
    let url = audio_url(cli.kanji.as_str(), cli.kana.as_str());
    let filename = audio_filename(cli.kanji.as_str(), cli.kana.as_str());
    let clipboard = if cli.copy {
        Some(sound_tag(filename.as_str()))
    } else {
        None
    };
    Ok(RunPlan { url, filename, dest_dir: dir, clipboard })
}

} // verus!
