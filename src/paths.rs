use vstd::prelude::*;
use vstd::string::*;

verus! {

/// Joins two path components with a single `/`, the way a relative
/// component is appended to a directory.
pub open spec fn join_spec(dir: Seq<char>, name: Seq<char>) -> Seq<char> {
    if dir.len() == 0 {
        name
    } else if dir.last() == '/' {
        dir + name
    } else {
        dir + seq!['/'] + name
    }
}

/// Appends the relative component `name` to the directory `dir`.
pub fn join(dir: &str, name: &str) -> (r: String)
    ensures
        r@ == join_spec(dir@, name@),
{
    if dir.is_empty() {
        String::from_str(name)
    } else if dir.get_char(dir.unicode_len() - 1) == '/' {
        String::from_str(dir).concat(name)
    } else {
        proof {
            reveal_strlit("/");
        }
        String::from_str(dir).concat("/").concat(name)
    }
}

/// The directory, under the project root, that holds every artifact.
pub open spec fn output_dir_spec(root: Seq<char>) -> Seq<char> {
    join_spec(root, "target"@)
}

/// Where each artifact of a circuit lives, relative to a project root.
pub struct ArtifactPaths {
    /// `target/`
    pub output_dir: String,
    /// `target/<circuit>.json`: the compiled circuit descriptor.
    pub circuit: String,
    /// `target/<circuit>.gz`: the witness.
    pub witness: String,
    /// `target/proof`: the proof bytes.
    pub proof: String,
    /// `target/vk`: the directory of key material.
    pub key_dir: String,
    /// `target/vk/vk`: the verification key.
    pub key_file: String,
    /// `target/Verifier.sol`: the exported verifier.
    pub verifier: String,
}

/// The artifact layout of circuit `name` under project root `root`.
pub open spec fn artifacts_spec(root: Seq<char>, name: Seq<char>) -> (Seq<char>, Seq<char>, Seq<char>, Seq<char>, Seq<char>, Seq<char>, Seq<char>) {
    let out = output_dir_spec(root);
    let keys = join_spec(out, "vk"@);
    (
        out,
        join_spec(out, name + ".json"@),
        join_spec(out, name + ".gz"@),
        join_spec(out, "proof"@),
        keys,
        join_spec(keys, "vk"@),
        join_spec(out, "Verifier.sol"@),
    )
}

impl ArtifactPaths {
    pub open spec fn view(&self) -> (Seq<char>, Seq<char>, Seq<char>, Seq<char>, Seq<char>, Seq<char>, Seq<char>) {
        (
            self.output_dir@,
            self.circuit@,
            self.witness@,
            self.proof@,
            self.key_dir@,
            self.key_file@,
            self.verifier@,
        )
    }

    /// Computes every artifact location of circuit `name` under `root`,
    /// without touching the file system.
    pub fn resolve(root: &str, name: &str) -> (r: ArtifactPaths)
        ensures
            r@ == artifacts_spec(root@, name@),
    {
        let out = join(root, "target");
        let key_dir = join(out.as_str(), "vk");
        let key_file = join(key_dir.as_str(), "vk");
        let circuit_file = String::from_str(name).concat(".json");
        let witness_file = String::from_str(name).concat(".gz");
        let circuit = join(out.as_str(), circuit_file.as_str());
        let witness = join(out.as_str(), witness_file.as_str());
        let proof = join(out.as_str(), "proof");
        let verifier = join(out.as_str(), "Verifier.sol");
        ArtifactPaths { output_dir: out, circuit, witness, proof, key_dir, key_file, verifier }
    }
}

} // verus!
