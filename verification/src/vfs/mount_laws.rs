//! Laws of what is mounted from where to where, said of the settings themselves.
use crate::path::normalized;
use crate::text::before_last_slash;
use crate::types::vfs::{VfsErrorView, VirtualFs};
use crate::vfs::memory_fs::{root, MemoryFs};
use crate::vfs::mount::{action_at, check_inside, check_prompt_size, check_source, check_target, detect_project_root, host_parent, is_absolute, joined, prompt_written, strip_private_prefix, without_empty_end, MountAction, MountActionView, MountError, MountErrorView, MountSettings};
use vstd::prelude::*;

verus! {

broadcast use vstd::seq_lib::group_seq_properties;

/// The relative path `path` behind `base`, with one slash between them.
pub open spec fn behind(base: Seq<char>, path: Seq<char>) -> Seq<char> {
    if base.len() == 0 || base[base.len() - 1] == '/' {
        base + path
    } else {
        base + "/"@ + path
    }
}

/// The path begins with a slash.
pub open spec fn from_root(path: Seq<char>) -> bool {
    path.len() > 0 && path[0] == '/'
}

/// The first step mounts `skills` of the project, where that is wanted.
pub proof fn skills_come_first(settings: MountSettings)
    ensures
        action_at(settings, 0) == Ok::<MountActionView, MountErrorView>(
            if settings.auto_mount_skills {
                MountActionView::Skills { source: behind(settings.project_root@, "skills"@) }
            } else {
                MountActionView::Nothing
            },
        ),
{
    reveal_strlit("skills");
    reveal_strlit("/");
    assert("/"@ =~= seq!['/']);
}

/// The steps after it are the system prompts in their order. A prompt is a file of the project
/// exactly where it is a relative path with a slash, and it keeps its place below the root.
pub proof fn prompts_come_next(settings: MountSettings, i: int)
    requires
        0 <= i < settings.prompts@.len(),
    ensures
        ({
            let prompt = settings.prompts@[i];
            action_at(settings, i + 1) == Ok::<MountActionView, MountErrorView>(
                match prompt.system_prompt {
                    None => MountActionView::Nothing,
                    Some(path) => if path@.contains('/') && path@[0] != '/' && path@[0] != '~' {
                        MountActionView::Prompt {
                            agent: prompt.agent@,
                            prompt_path: path@,
                            source: behind(settings.project_root@, path@),
                            target: "/"@ + path@,
                        }
                    } else {
                        MountActionView::Nothing
                    },
                },
            )
        }),
{
    reveal_strlit("/");
    assert("/"@ =~= seq!['/']);
    match settings.prompts@[i].system_prompt {
        Some(path) => {
            if path@.contains('/') {
                assert(path@.len() > 0);
            }
        },
        None => {},
    }
}

/// The last steps are the configured mounts in their order. Each is refused exactly where its
/// target is not absolute or is the root. Else it goes to its target, and its source is `~` or
/// `~/<rest>` in the home directory, itself where it is absolute, and below the project root
/// where it is relative.
pub proof fn configured_sources_are_resolved(settings: MountSettings, i: int, rest: Seq<char>)
    requires
        0 <= i < settings.mounts@.len(),
    ensures
        ({
            let mount = settings.mounts@[i];
            let s = mount.source@;
            let base = settings.project_root@;
            let out = action_at(settings, 1 + settings.prompts@.len() + i);
            &&& out is Ok <==> mount.target@.len() > 1 && mount.target@[0] == '/'
            &&& out matches Ok(action) ==> {
                &&& action is Mount
                &&& action->Mount_target == mount.target@
                &&& from_root(s) ==> action->Mount_source == s
                &&& settings.home matches Some(home) ==> {
                    &&& s == "~/"@ + rest && from_root(home@) ==> action->Mount_source == home@ + "/"@ + rest
                    &&& s == "~/"@ + rest && home@.len() > 0 && home@[0] != '/' ==> action->Mount_source == behind(
                        base,
                        home@ + "/"@ + rest,
                    )
                    &&& s == "~"@ && from_root(home@) ==> action->Mount_source == home@
                    &&& s == "~"@ && !from_root(home@) ==> action->Mount_source == behind(base, home@)
                }
                &&& !from_root(s) && (settings.home is None || (s != "~"@ && !"~/"@.is_prefix_of(s)))
                    ==> action->Mount_source == behind(base, s)
            }
        }),
{
    reveal_strlit("~");
    reveal_strlit("~/");
    reveal_strlit("/");
    assert("/"@ =~= seq!['/']);
    let mount = settings.mounts@[i];
    let s = mount.source@;
    if mount.target@.len() == 1 && mount.target@[0] == '/' {
        assert(mount.target@ =~= "/"@);
    }
    if from_root(s) {
        assert(s != "~"@);
        if "~/"@.is_prefix_of(s) {
            assert(s.subrange(0, 2)[0] == '~');
        }
    }
    if let Some(home) = settings.home {
        if s == "~/"@ + rest {
            assert("~/"@ =~= s.subrange(0, 2));
            assert(s.skip(1) =~= "/"@ + rest);
            assert(home@ + s.skip(1) =~= home@ + "/"@ + rest);
            assert(from_root(home@) ==> is_absolute(home@ + s.skip(1)));
        } else if s == "~"@ {
            assert(home@ + s.skip(1) =~= home@);
        }
    }
}

/// What `action` says is what the step is.
pub proof fn actions_are_the_steps(settings: MountSettings, step: usize, r: Result<MountAction, MountError>)
    requires
        call_ensures(MountSettings::action, (&settings, step), r),
    ensures
        r matches Ok(action) ==> action_at(settings, step as int) == Ok::<MountActionView, MountErrorView>(action@),
        r matches Err(e) ==> action_at(settings, step as int) == Err::<MountActionView, MountErrorView>(e@),
{
}

// ---- The project root --------------------------------------------------------

/// The directory of `<dir>/<file>` is `dir`.
proof fn lemma_parent(dir: Seq<char>, file: Seq<char>)
    requires
        is_file_name(file),
        is_dir_name(dir),
    ensures
        host_parent(dir + "/"@ + file) == Some(if dir.len() == 0 { "/"@ } else { dir }),
{
    reveal_strlit("/");
    reveal_strlit(".");
    assert("/"@ =~= seq!['/']);
    let path = dir + "/"@ + file;
    assert(file.contains(file[file.len() - 1]));
    assert(path.last() == file[file.len() - 1]);
    if path.last() == '.' && path[path.len() - 2] == '/' {
        if file.len() == 1 {
            assert(file =~= "."@);
        } else {
            assert(file.contains(file[file.len() - 2]));
        }
    }
    assert(without_empty_end(path) == path);
    lemma_last_slash(dir, file);
    assert(without_empty_end(dir) == dir);
}

proof fn lemma_last_slash(dir: Seq<char>, file: Seq<char>)
    requires
        !file.contains('/'),
    ensures
        before_last_slash(dir + "/"@ + file) == Some(dir),
    decreases file.len(),
{
    reveal_strlit("/");
    let path = dir + "/"@ + file;
    if file.len() == 0 {
        assert(path.drop_last() =~= dir);
    } else {
        assert(file.contains(file.last()));
        assert(path.drop_last() =~= dir + "/"@ + file.drop_last());
        assert forall|k: int| 0 <= k < file.len() - 1 implies file.drop_last()[k] != '/' by {
            assert(file.contains(file[k]));
        }
        lemma_last_slash(dir, file.drop_last());
    }
}

/// A name without a slash that is not the dot.
pub open spec fn is_file_name(file: Seq<char>) -> bool {
    file.len() > 0 && !file.contains('/') && file != "."@
}

/// A path that ends neither in a slash nor in a component `.`.
pub open spec fn is_dir_name(dir: Seq<char>) -> bool {
    dir.len() > 0 ==> dir.last() != '/' && !(dir.len() > 1 && dir.last() == '.' && dir[dir.len() - 2] == '/')
}

/// The project root of a config file is the directory that the file stands in, seen from the
/// working directory where the path is relative. Without a config file it is the working
/// directory.
pub proof fn the_project_is_around_its_config(
    config_path: &str,
    is_adhoc: bool,
    cwd: Result<String, String>,
    dir: Seq<char>,
    file: Seq<char>,
    r: Result<String, MountError>,
)
    requires
        call_ensures(detect_project_root, (config_path, is_adhoc, cwd), r),
        is_file_name(file),
    ensures
        is_adhoc && cwd is Ok ==> r is Ok && r->Ok_0@ == cwd->Ok_0@,
        is_adhoc && cwd is Err ==> r is Err,
        !is_adhoc && config_path@ == dir + "/"@ + file && is_dir_name(dir) && from_root(dir) ==> r is Ok && r->Ok_0@
            == dir,
        !is_adhoc && config_path@ == "/"@ + file ==> r is Ok && r->Ok_0@ == "/"@,
        !is_adhoc && config_path@ == file && cwd is Ok && cwd->Ok_0@.len() > 0 && is_dir_name(cwd->Ok_0@) ==> r is Ok
            && r->Ok_0@ == cwd->Ok_0@,
        !is_adhoc && config_path@ == dir + "/"@ + file && dir.len() > 0 && dir[0] != '/' && dir != "."@ && is_dir_name(dir)
            && cwd is Ok && cwd->Ok_0@.len() > 0 && is_dir_name(cwd->Ok_0@) ==> r is Ok && r->Ok_0@ == cwd->Ok_0@ + "/"@ + dir,
        !is_adhoc && !from_root(config_path@) && cwd is Err ==> r is Err,
{
    reveal_strlit("/");
    assert("/"@ =~= seq!['/']);
    if !is_adhoc {
        if config_path@ == dir + "/"@ + file && is_dir_name(dir) && from_root(dir) {
            lemma_parent(dir, file);
        }
        if config_path@ == "/"@ + file {
            assert(Seq::<char>::empty() + "/"@ + file =~= config_path@);
            lemma_parent(Seq::empty(), file);
        }
        if config_path@ == file && cwd is Ok && cwd->Ok_0@.len() > 0 && is_dir_name(cwd->Ok_0@) {
            assert(file.contains(file[0]));
            lemma_parent(cwd->Ok_0@, file);
        }
        if config_path@ == dir + "/"@ + file && dir.len() > 0 && dir[0] != '/' && dir != "."@ && is_dir_name(dir)
            && cwd is Ok && cwd->Ok_0@.len() > 0 && is_dir_name(cwd->Ok_0@) {
            let whole = cwd->Ok_0@ + "/"@ + dir;
            assert(config_path@[0] == dir[0]);
            assert(joined(cwd->Ok_0@, config_path@) =~= whole + "/"@ + file);
            reveal_strlit(".");
            assert(whole.last() == dir.last());
            if dir.len() > 1 {
                assert(whole[whole.len() - 2] == dir[dir.len() - 2]);
            } else if dir[0] == '.' {
                assert(dir =~= "."@);
            }
            lemma_parent(whole, file);
        }
    }
}

// ---- Checks ------------------------------------------------------------------

/// A target is one to mount at exactly where it is absolute and not the root. A source must be
/// there. A prompt file must lie in the project and be no larger than a megabyte; one that is
/// missing is an error for the entry agent alone.
pub proof fn checks_say_what_may_be_mounted(
    settings: MountSettings,
    a: &str,
    b: &str,
    c: &str,
    there: bool,
    size: u64,
    r: Result<(), MountError>,
)
    ensures
        call_ensures(check_target, (a,), r) ==> (r is Ok <==> a@.len() > 1 && a@[0] == '/'),
        call_ensures(check_source, (there, a, b), r) ==> (r is Ok <==> there),
        call_ensures(check_prompt_size, (a, size), r) ==> (r is Ok <==> size <= 1024 * 1024),
        call_ensures(check_inside, (a, b, c), r) ==> (r is Ok <==> c@ == "/"@ || b@ == c@ || (c@ + "/"@).is_prefix_of(b@)),
        call_ensures(MountSettings::prompt_missing, (&settings, a, b, c), r) ==> (r is Ok <==> a@
            != settings.entry_agent@),
{
    reveal_strlit("/");
    assert("/"@ =~= seq!['/']);
    if a@.len() == 1 && a@[0] == '/' {
        assert(a@ =~= "/"@);
    }
    assert(c@ + "/"@ =~= c@.push('/'));
}

/// What stands under `/private/var`, `/private/tmp` and `/private/etc` is shown without
/// `/private`, and every other path as it is.
pub proof fn private_directories_are_shown_plainly(path: &str, rest: Seq<char>, r: String)
    requires
        call_ensures(strip_private_prefix, (path,), r),
    ensures
        path@ == "/private/var/"@ + rest ==> r@ == "/var/"@ + rest,
        path@ == "/private/tmp/"@ + rest ==> r@ == "/tmp/"@ + rest,
        path@ == "/private/etc/"@ + rest ==> r@ == "/etc/"@ + rest,
        !"/private/"@.is_prefix_of(path@) ==> r@ == path@,
{
    reveal_strlit("/private/var/");
    reveal_strlit("/private/tmp/");
    reveal_strlit("/private/etc/");
    reveal_strlit("/private/");
    if path@ == "/private/var/"@ + rest {
        assert("/private/var/"@ =~= path@.subrange(0, 13));
        assert(path@.skip(13) =~= rest);
    }
    if path@ == "/private/tmp/"@ + rest {
        assert("/private/tmp/"@ =~= path@.subrange(0, 13));
        assert(path@.skip(13) =~= rest);
        assert(path@[9] == 't');
        assert("/private/var/"@[9] == 'v');
        if "/private/var/"@.is_prefix_of(path@) {
            assert(path@.subrange(0, 13)[9] == 'v');
        }
    }
    if path@ == "/private/etc/"@ + rest {
        assert("/private/etc/"@ =~= path@.subrange(0, 13));
        assert(path@.skip(13) =~= rest);
        assert(path@[9] == 'e');
        if "/private/var/"@.is_prefix_of(path@) {
            assert(path@.subrange(0, 13)[9] == 'v');
        }
        if "/private/tmp/"@.is_prefix_of(path@) {
            assert(path@.subrange(0, 13)[9] == 't');
        }
    }
    if !"/private/"@.is_prefix_of(path@) {
        if "/private/var/"@.is_prefix_of(path@) {
            assert("/private/"@ =~= path@.subrange(0, 13).subrange(0, 9));
            assert("/private/"@ =~= path@.subrange(0, 9));
        }
        if "/private/tmp/"@.is_prefix_of(path@) {
            assert("/private/"@ =~= path@.subrange(0, 13).subrange(0, 9));
            assert("/private/"@ =~= path@.subrange(0, 9));
        }
        if "/private/etc/"@.is_prefix_of(path@) {
            assert("/private/"@ =~= path@.subrange(0, 13).subrange(0, 9));
            assert("/private/"@ =~= path@.subrange(0, 9));
        }
    }
}

/// In a filesystem in memory, a prompt file that was written is read back, and writing one
/// fails only at the root.
pub proof fn written_prompts_are_read_back(
    before: MemoryFs,
    path: Seq<char>,
    data: Seq<u8>,
    after: MemoryFs,
    out: Option<MountErrorView>,
    read: Result<Seq<u8>, VfsErrorView>,
)
    requires
        prompt_written(before, path, data, after, out),
        after.reads(path, read),
    ensures
        out is None <==> normalized(path) != root(),
        out is None ==> read == Ok::<Seq<u8>, VfsErrorView>(data),
{
}

} // verus!
