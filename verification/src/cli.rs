//! The client handle and the argument list of each `MuMuManager` and
//! `adb` invocation.
use vstd::prelude::*;

use crate::control::ControlAction;
use crate::error::MumuError;
use crate::idx::SlotIndex;
use crate::setting::Setting;
use crate::simu::SimuKey;
use crate::text::{decimal, decimal_string};
use crate::vm_index::VmIndex;

verus! {

/// A handle on the `MuMuManager.exe` command line (`mumu` on `PATH`).
#[derive(Clone, Debug)]
pub struct MumuCli {
    exe: String,
}

impl View for MumuCli {
    type V = Seq<char>;

    /// The path of the executable.
    closed spec fn view(&self) -> Seq<char> {
        self.exe@
    }
}

/// A copy of a string slice.
pub(crate) fn owned(s: &str) -> (r: String)
    ensures
        r@ == s@,
{
    String::from_str(s)
}

impl MumuCli {
    /// A client pointing at the given executable path.
    pub fn new(exe: &str) -> (r: Self)
        ensures
            r@ == exe@,
    {
        MumuCli { exe: owned(exe) }
    }

    /// A client using `mumu` from `PATH`.
    pub fn from_path() -> (r: Self)
        ensures
            r@ == "mumu"@,
    {
        Self::new("mumu")
    }

    /// The path of the executable.
    pub fn exe(&self) -> (r: &str)
        ensures
            r@ == self@,
    {
        self.exe.as_str()
    }
}

/// The owned copies of a list of string slices, in order.
pub(crate) fn strings(parts: &[&str]) -> (r: Vec<String>)
    ensures
        r.deep_view() == parts@.map_values(|p: &str| p@),
{
    let mut r: Vec<String> = Vec::new();
    let mut i: usize = 0;
    while i < parts.len()
        invariant
            0 <= i <= parts@.len(),
            r.deep_view() == parts@.take(i as int).map_values(|p: &str| p@),
        decreases parts@.len() - i,
    {
        r.push(owned(parts[i]));
        proof {
            assert(parts@.take(i + 1).map_values(|p: &str| p@) =~= parts@.take(i as int).map_values(
                |p: &str| p@,
            ).push(parts@[i as int]@));
        }
        i = i + 1;
    }
    assert(parts@.take(i as int) =~= parts@);
    r
}

/// The outcome of one `MuMuManager` run: its stdout when it exits
/// successfully, otherwise an error with its exit code and stderr.
pub fn exit_outcome(success: bool, code: Option<i32>, stdout: Vec<u8>, stderr: String) -> (r:
    Result<Vec<u8>, MumuError>)
    ensures
        success ==> r == Ok::<Vec<u8>, MumuError>(stdout),
        !success ==> (r matches Err(MumuError::NonZeroExit { code: c, stderr: e }) && c == code
            && e@ == stderr@),
{
    if success {
        Ok(stdout)
    } else {
        Err(MumuError::NonZeroExit { code, stderr })
    }
}

/// `info --vmindex <idx>`
pub fn info_args(vmindex: &VmIndex) -> (r: Vec<String>)
    ensures
        r.deep_view() == seq!["info"@, "--vmindex"@, vmindex.arg_spec()],
{
    let idx = vmindex.to_arg();
    let r = strings(&["info", "--vmindex", idx.as_str()]);
    assert(r.deep_view() =~= seq!["info"@, "--vmindex"@, vmindex.arg_spec()]);
    r
}

/// `control --vmindex <idx> <action>`
pub fn control_args(vmindex: &VmIndex, action: ControlAction) -> (r: Vec<String>)
    ensures
        r.deep_view() == seq!["control"@, "--vmindex"@, vmindex.arg_spec(), action.wire()],
{
    let idx = vmindex.to_arg();
    let r = strings(&["control", "--vmindex", idx.as_str(), action.as_str()]);
    assert(r.deep_view() =~= seq!["control"@, "--vmindex"@, vmindex.arg_spec(), action.wire()]);
    r
}

/// `create --number <n> [--mini]`
pub fn create_args(number: u32, mini: bool) -> (r: Vec<String>)
    ensures
        r.deep_view() == seq!["create"@, "--number"@, decimal(number as nat)] + (if mini {
            seq!["--mini"@]
        } else {
            Seq::<Seq<char>>::empty()
        }),
{
    let n = decimal_string(number as u64);
    let r = if mini {
        strings(&["create", "--number", n.as_str(), "--mini"])
    } else {
        strings(&["create", "--number", n.as_str()])
    };
    assert(r.deep_view() =~= seq!["create"@, "--number"@, decimal(number as nat)] + (if mini {
        seq!["--mini"@]
    } else {
        Seq::<Seq<char>>::empty()
    }));
    r
}

/// `clone --vmindex <idx> --number <n>`
pub fn clone_args(vmindex: &VmIndex, number: u32) -> (r: Vec<String>)
    ensures
        r.deep_view() == seq![
            "clone"@,
            "--vmindex"@,
            vmindex.arg_spec(),
            "--number"@,
            decimal(number as nat),
        ],
{
    let idx = vmindex.to_arg();
    let n = decimal_string(number as u64);
    let r = strings(&["clone", "--vmindex", idx.as_str(), "--number", n.as_str()]);
    assert(r.deep_view() =~= seq![
        "clone"@,
        "--vmindex"@,
        vmindex.arg_spec(),
        "--number"@,
        decimal(number as nat),
    ]);
    r
}

/// `delete --vmindex <idx>`
pub fn delete_args(vmindex: &VmIndex) -> (r: Vec<String>)
    ensures
        r.deep_view() == seq!["delete"@, "--vmindex"@, vmindex.arg_spec()],
{
    let idx = vmindex.to_arg();
    let r = strings(&["delete", "--vmindex", idx.as_str()]);
    assert(r.deep_view() =~= seq!["delete"@, "--vmindex"@, vmindex.arg_spec()]);
    r
}

/// `rename --vmindex <index> --name <name>`
pub fn rename_args(index: SlotIndex, name: &str) -> (r: Vec<String>)
    ensures
        r.deep_view() == seq!["rename"@, "--vmindex"@, decimal(index@ as nat), "--name"@, name@],
{
    let i = index.to_string();
    let r = strings(&["rename", "--vmindex", i.as_str(), "--name", name]);
    assert(r.deep_view() =~= seq!["rename"@, "--vmindex"@, decimal(index@ as nat), "--name"@, name@]);
    r
}

/// `sh --vmindex <index> --cmd <cmd>`
pub fn sh_args(index: SlotIndex, cmd: &str) -> (r: Vec<String>)
    ensures
        r.deep_view() == seq!["sh"@, "--vmindex"@, decimal(index@ as nat), "--cmd"@, cmd@],
{
    let i = index.to_string();
    let r = strings(&["sh", "--vmindex", i.as_str(), "--cmd", cmd]);
    assert(r.deep_view() =~= seq!["sh"@, "--vmindex"@, decimal(index@ as nat), "--cmd"@, cmd@]);
    r
}

/// `adb --vmindex <index> --cmd <cmd>`
pub fn adb_args(index: SlotIndex, cmd: &str) -> (r: Vec<String>)
    ensures
        r.deep_view() == seq!["adb"@, "--vmindex"@, decimal(index@ as nat), "--cmd"@, cmd@],
{
    let i = index.to_string();
    let r = strings(&["adb", "--vmindex", i.as_str(), "--cmd", cmd]);
    assert(r.deep_view() =~= seq!["adb"@, "--vmindex"@, decimal(index@ as nat), "--cmd"@, cmd@]);
    r
}

/// The value `--simu_value` gets: the given one, or `__null__`, which
/// clears the property back to its generated default.
pub open spec fn simu_value(value: Option<Seq<char>>) -> Seq<char> {
    match value {
        Some(v) => v,
        None => "__null__"@,
    }
}

/// `simulation --vmindex <idx> --simu_key <key> --simu_value <value>`
pub fn simulate_args(vmindex: &VmIndex, key: SimuKey, value: Option<&str>) -> (r: Vec<String>)
    ensures
        r.deep_view() == seq![
            "simulation"@,
            "--vmindex"@,
            vmindex.arg_spec(),
            "--simu_key"@,
            key.wire(),
            "--simu_value"@,
            simu_value(
                match value {
                    Some(v) => Some(v@),
                    None => None,
                },
            ),
        ],
{
    let idx = vmindex.to_arg();
    let v = match value {
        Some(v) => v,
        None => "__null__",
    };
    let r = strings(
        &["simulation", "--vmindex", idx.as_str(), "--simu_key", key.as_str(), "--simu_value", v],
    );
    assert(r.deep_view() =~= seq![
        "simulation"@,
        "--vmindex"@,
        vmindex.arg_spec(),
        "--simu_key"@,
        key.wire(),
        "--simu_value"@,
        simu_value(
            match value {
                Some(v) => Some(v@),
                None => None,
            },
        ),
    ]);
    r
}

/// `import --path <path> --number 1`: one new instance from a `.mumudata`
/// file (`--number` is a repeat count, not a slot).
pub fn import_args(path: &str) -> (r: Vec<String>)
    ensures
        r.deep_view() == seq!["import"@, "--path"@, path@, "--number"@, "1"@],
{
    let r = strings(&["import", "--path", path, "--number", "1"]);
    assert(r.deep_view() =~= seq!["import"@, "--path"@, path@, "--number"@, "1"@]);
    r
}

/// `export --vmindex <idx> --dir <dir> [--name <name>] [--zip]`
pub fn export_args(vmindex: &VmIndex, dir: &str, name: Option<&str>, zip: bool) -> (r: Vec<
    String,
>)
    ensures
        r.deep_view() == seq!["export"@, "--vmindex"@, vmindex.arg_spec(), "--dir"@, dir@] + (
        match name {
            Some(n) => seq!["--name"@, n@],
            None => Seq::<Seq<char>>::empty(),
        }) + (if zip {
            seq!["--zip"@]
        } else {
            Seq::<Seq<char>>::empty()
        }),
{
    let idx = vmindex.to_arg();
    let mut r = strings(&["export", "--vmindex", idx.as_str(), "--dir", dir]);
    let ghost base = r.deep_view();
    match name {
        Some(n) => {
            r.push(owned("--name"));
            r.push(owned(n));
            assert(r.deep_view() =~= base + seq!["--name"@, n@]);
        },
        None => {
            assert(r.deep_view() =~= base + Seq::<Seq<char>>::empty());
        },
    }
    let ghost named = r.deep_view();
    if zip {
        r.push(owned("--zip"));
        assert(r.deep_view() =~= named + seq!["--zip"@]);
    } else {
        assert(r.deep_view() =~= named + Seq::<Seq<char>>::empty());
    }
    assert(r.deep_view() =~= seq!["export"@, "--vmindex"@, vmindex.arg_spec(), "--dir"@, dir@] + (
    match name {
        Some(n) => seq!["--name"@, n@],
        None => Seq::<Seq<char>>::empty(),
    }) + (if zip {
        seq!["--zip"@]
    } else {
        Seq::<Seq<char>>::empty()
    }));
    r
}

/// The `--key <k> --value <v>` arguments of each pair, in order.
pub open spec fn key_value_args(pairs: Seq<(Seq<char>, Seq<char>)>) -> Seq<Seq<char>>
    decreases pairs.len(),
{
    if pairs.len() == 0 {
        Seq::empty()
    } else {
        key_value_args(pairs.drop_last()) + seq![
            "--key"@,
            pairs.last().0,
            "--value"@,
            pairs.last().1,
        ]
    }
}

proof fn lemma_key_value_arg_at(pairs: Seq<(Seq<char>, Seq<char>)>, i: int)
    requires
        0 <= i < pairs.len(),
    ensures
        key_value_args(pairs).len() == 4 * pairs.len(),
        key_value_args(pairs)[4 * i] == "--key"@,
        key_value_args(pairs)[4 * i + 1] == pairs[i].0,
        key_value_args(pairs)[4 * i + 2] == "--value"@,
        key_value_args(pairs)[4 * i + 3] == pairs[i].1,
    decreases pairs.len(),
{
    let init = pairs.drop_last();
    let a = key_value_args(init);
    let t = seq!["--key"@, pairs.last().0, "--value"@, pairs.last().1];
    assert(key_value_args(pairs) == a + t);
    if i < pairs.len() - 1 {
        lemma_key_value_arg_at(init, i);
        assert(pairs[i] == init[i]);
    } else {
        if init.len() > 0 {
            lemma_key_value_arg_at(init, 0);
        }
        assert(a.len() == 4 * init.len());
        assert(4 * i == a.len());
    }
}

/// The pair arguments hold four entries per pair, in the pairs' order: the
/// `i`-th pair is written `--key`, its key, `--value`, its value.
pub proof fn lemma_key_value_args(pairs: Seq<(Seq<char>, Seq<char>)>)
    ensures
        key_value_args(pairs).len() == 4 * pairs.len(),
        forall|i: int|
            0 <= i < pairs.len() ==> key_value_args(pairs).subrange(4 * i, 4 * i + 4) == seq![
                "--key"@,
                (#[trigger] pairs[i]).0,
                "--value"@,
                pairs[i].1,
            ],
{
    if pairs.len() > 0 {
        lemma_key_value_arg_at(pairs, 0);
    }
    assert forall|i: int| 0 <= i < pairs.len() implies key_value_args(pairs).subrange(
        4 * i,
        4 * i + 4,
    ) == seq!["--key"@, (#[trigger] pairs[i]).0, "--value"@, pairs[i].1] by {
        lemma_key_value_arg_at(pairs, i);
        assert(key_value_args(pairs).subrange(4 * i, 4 * i + 4) =~= seq![
            "--key"@,
            pairs[i].0,
            "--value"@,
            pairs[i].1,
        ]);
    }
}

/// The views of a list of string-slice pairs.
pub open spec fn pair_views(pairs: Seq<(&str, &str)>) -> Seq<(Seq<char>, Seq<char>)> {
    pairs.map_values(|p: (&str, &str)| (p.0@, p.1@))
}

/// Appends `--key <k> --value <v>` to `r`.
fn push_key_value(r: &mut Vec<String>, k: &str, v: &str)
    ensures
        final(r).deep_view() == old(r).deep_view() + seq!["--key"@, k@, "--value"@, v@],
{
    r.push(owned("--key"));
    r.push(owned(k));
    r.push(owned("--value"));
    r.push(owned(v));
    assert(r.deep_view() =~= old(r).deep_view() + seq!["--key"@, k@, "--value"@, v@]);
}

/// `setting --vmindex <idx>` then `--key <k> --value <v>` for each pair.
pub fn setting_set_args(vmindex: &VmIndex, pairs: &[(&str, &str)]) -> (r: Vec<String>)
    ensures
        r.deep_view() == seq!["setting"@, "--vmindex"@, vmindex.arg_spec()] + key_value_args(
            pair_views(pairs@),
        ),
{
    let idx = vmindex.to_arg();
    let mut r = strings(&["setting", "--vmindex", idx.as_str()]);
    let ghost head = r.deep_view();
    let mut i: usize = 0;
    while i < pairs.len()
        invariant
            0 <= i <= pairs@.len(),
            head == seq!["setting"@, "--vmindex"@, vmindex.arg_spec()],
            r.deep_view() == head + key_value_args(pair_views(pairs@.take(i as int))),
        decreases pairs@.len() - i,
    {
        let (k, v) = pairs[i];
        push_key_value(&mut r, k, v);
        proof {
            assert(pair_views(pairs@.take(i + 1)).drop_last() =~= pair_views(pairs@.take(i as int)));
        }
        i = i + 1;
    }
    assert(pairs@.take(i as int) =~= pairs@);
    r
}

/// The `(key, value)` wire pairs of a list of settings.
pub open spec fn setting_pairs(settings: Seq<Setting>) -> Seq<(Seq<char>, Seq<char>)> {
    settings.map_values(|s: Setting| (s.key_spec(), s.value_spec()))
}

/// The arguments that apply typed settings: those of [`setting_set_args`]
/// on each setting's `(key, value)` pair.
pub fn setting_apply_args(vmindex: &VmIndex, settings: &[Setting]) -> (r: Vec<String>)
    ensures
        r.deep_view() == seq!["setting"@, "--vmindex"@, vmindex.arg_spec()] + key_value_args(
            setting_pairs(settings@),
        ),
{
    let idx = vmindex.to_arg();
    let mut r = strings(&["setting", "--vmindex", idx.as_str()]);
    let ghost head = r.deep_view();
    let mut i: usize = 0;
    while i < settings.len()
        invariant
            0 <= i <= settings@.len(),
            head == seq!["setting"@, "--vmindex"@, vmindex.arg_spec()],
            r.deep_view() == head + key_value_args(setting_pairs(settings@.take(i as int))),
        decreases settings@.len() - i,
    {
        let (k, v) = settings[i].as_pair();
        push_key_value(&mut r, k, v.as_str());
        proof {
            assert(setting_pairs(settings@.take(i + 1)).drop_last() =~= setting_pairs(
                settings@.take(i as int),
            ));
        }
        i = i + 1;
    }
    assert(settings@.take(i as int) =~= settings@);
    r
}

/// The `i`-th of the applied settings is sent as `--key`, its wire key,
/// `--value`, its wire value, right after the three leading arguments.
pub proof fn lemma_setting_apply_layout(vmindex: VmIndex, settings: Seq<Setting>)
    ensures
        ({
            let args = seq!["setting"@, "--vmindex"@, vmindex.arg_spec()] + key_value_args(
                setting_pairs(settings),
            );
            &&& args.len() == 3 + 4 * settings.len()
            &&& forall|i: int|
                0 <= i < settings.len() ==> args.subrange(3 + 4 * i, 7 + 4 * i) == seq![
                    "--key"@,
                    (#[trigger] settings[i]).key_spec(),
                    "--value"@,
                    settings[i].value_spec(),
                ]
        }),
{
    let pairs = setting_pairs(settings);
    let head = seq!["setting"@, "--vmindex"@, vmindex.arg_spec()];
    let args = head + key_value_args(pairs);
    lemma_key_value_args(pairs);
    assert forall|i: int| 0 <= i < settings.len() implies args.subrange(3 + 4 * i, 7 + 4 * i) == seq![
        "--key"@,
        (#[trigger] settings[i]).key_spec(),
        "--value"@,
        settings[i].value_spec(),
    ] by {
        assert(pairs[i] == (settings[i].key_spec(), settings[i].value_spec()));
        assert(args.subrange(3 + 4 * i, 7 + 4 * i) =~= key_value_args(pairs).subrange(
            4 * i,
            4 * i + 4,
        ));
    }
}

/// `setting --vmindex <idx> --path <path>`
pub fn setting_from_file_args(vmindex: &VmIndex, path: &str) -> (r: Vec<String>)
    ensures
        r.deep_view() == seq!["setting"@, "--vmindex"@, vmindex.arg_spec(), "--path"@, path@],
{
    let idx = vmindex.to_arg();
    let r = strings(&["setting", "--vmindex", idx.as_str(), "--path", path]);
    assert(r.deep_view() =~= seq!["setting"@, "--vmindex"@, vmindex.arg_spec(), "--path"@, path@]);
    r
}

/// `setting --vmindex <idx> --all_writable`
pub fn setting_all_writable_args(vmindex: &VmIndex) -> (r: Vec<String>)
    ensures
        r.deep_view() == seq!["setting"@, "--vmindex"@, vmindex.arg_spec(), "--all_writable"@],
{
    let idx = vmindex.to_arg();
    let r = strings(&["setting", "--vmindex", idx.as_str(), "--all_writable"]);
    assert(r.deep_view() =~= seq!["setting"@, "--vmindex"@, vmindex.arg_spec(), "--all_writable"@]);
    r
}

} // verus!
