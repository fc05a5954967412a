//! Image aliases: short names for the base images of well-known systems.

use crate::text::same_text;
use vstd::prelude::*;
use vstd::string::*;

verus! {

/// The base image that an image name stands for.
///
/// Five short names are aliases; the match is exact and case-sensitive.
/// Every other name is taken to be a base image already and stands for
/// itself.
pub open spec fn canonical_image(image: Seq<char>) -> Seq<char> {
    if image == "ubuntu"@ || image == "ubuntu:18:04"@ {
        "hashicorp/bionic64"@
    } else if image == "centos"@ || image == "centos:8"@ {
        "centos/8"@
    } else if image == "centos:7"@ {
        "centos/7"@
    } else {
        image
    }
}

/// Whether `image` is one of the five aliases.
pub open spec fn is_alias(image: Seq<char>) -> bool {
    image == "ubuntu"@ || image == "ubuntu:18:04"@ || image == "centos"@ || image == "centos:8"@
        || image == "centos:7"@
}

/// Every alias stands for its base image, and every other name for itself.
pub proof fn lemma_alias_table(image: Seq<char>)
    ensures
        image == "ubuntu"@ ==> canonical_image(image) == "hashicorp/bionic64"@,
        image == "ubuntu:18:04"@ ==> canonical_image(image) == "hashicorp/bionic64"@,
        image == "centos"@ ==> canonical_image(image) == "centos/8"@,
        image == "centos:8"@ ==> canonical_image(image) == "centos/8"@,
        image == "centos:7"@ ==> canonical_image(image) == "centos/7"@,
        !is_alias(image) ==> canonical_image(image) == image,
{
    lemma_aliases_differ();
}

/// The five aliases are five different names.
proof fn lemma_aliases_differ()
    ensures
        "ubuntu"@ != "ubuntu:18:04"@,
        "ubuntu"@ != "centos"@,
        "ubuntu"@ != "centos:8"@,
        "ubuntu"@ != "centos:7"@,
        "ubuntu:18:04"@ != "centos"@,
        "ubuntu:18:04"@ != "centos:8"@,
        "ubuntu:18:04"@ != "centos:7"@,
        "centos"@ != "centos:8"@,
        "centos"@ != "centos:7"@,
        "centos:8"@ != "centos:7"@,
{
    reveal_strlit("ubuntu");
    reveal_strlit("ubuntu:18:04");
    reveal_strlit("centos");
    reveal_strlit("centos:8");
    reveal_strlit("centos:7");
    assert("ubuntu"@.len() == 6 && "ubuntu:18:04"@.len() == 12);
    assert("centos"@.len() == 6 && "centos:8"@.len() == 8 && "centos:7"@.len() == 8);
    assert("ubuntu"@[0] != "centos"@[0]);
    assert("ubuntu"@[0] != "centos:8"@[0]);
    assert("ubuntu"@[0] != "centos:7"@[0]);
    assert("ubuntu:18:04"@[0] != "centos:7"@[0]);
    assert("centos:8"@[7] != "centos:7"@[7]);
}

/// No base image in the table is itself an alias, so resolving a resolved
/// name changes nothing.
pub proof fn lemma_resolving_twice(image: Seq<char>)
    ensures
        !is_alias(canonical_image(image)),
        canonical_image(canonical_image(image)) == canonical_image(image),
{
    reveal_strlit("ubuntu");
    reveal_strlit("ubuntu:18:04");
    reveal_strlit("centos");
    reveal_strlit("centos:8");
    reveal_strlit("centos:7");
    reveal_strlit("hashicorp/bionic64");
    reveal_strlit("centos/8");
    reveal_strlit("centos/7");
    assert("ubuntu"@.len() == 6 && "ubuntu:18:04"@.len() == 12);
    assert("centos"@.len() == 6 && "centos:8"@.len() == 8 && "centos:7"@.len() == 8);
    assert("hashicorp/bionic64"@.len() == 18);
    assert("centos/8"@.len() == 8 && "centos/7"@.len() == 8);
    assert("centos/8"@[6] != "centos:8"@[6]);
    assert("centos/8"@[6] != "centos:7"@[6]);
    assert("centos/7"@[6] != "centos:8"@[6]);
    assert("centos/7"@[6] != "centos:7"@[6]);
}

/// Resolves an image name to the base image it stands for.
pub fn resolve_image(image: &str) -> (r: String)
    ensures
        r@ == canonical_image(image@),
{
    if same_text(image, "ubuntu") || same_text(image, "ubuntu:18:04") {
        String::from_str("hashicorp/bionic64")
    } else if same_text(image, "centos") || same_text(image, "centos:8") {
        String::from_str("centos/8")
    } else if same_text(image, "centos:7") {
        String::from_str("centos/7")
    } else {
        String::from_str(image)
    }
}

} // verus!
