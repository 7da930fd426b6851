//! The scenarios in which the game is tried out, by name.

use vstd::prelude::*;

verus! {

/// The names of the scenarios, in the order in which they run.
pub open spec fn scenario_names() -> Seq<Seq<char>> {
    seq![
        "flat_gen"@,
        "simplex_gen"@,
        "scale_gen"@,
        "lump_gen"@,
        "terrace_gen"@,
        "complex_gen"@,
        "character_moves_horizontally"@,
        "character_doesnt_move_vertically"@,
        "create_world"@,
        "character_dies"@,
        "sword_attack"@,
    ]
}

/// The names of the scenarios, in the order in which they run: terrain
/// first, then movement, then the life and fights of characters.
pub fn all_tests() -> (names: Vec<&'static str>)
    ensures
        names@.len() == 11,
        names@.map_values(|name: &'static str| name@) == scenario_names(),
{
    let mut names: Vec<&'static str> = Vec::new();
    names.push("flat_gen");
    names.push("simplex_gen");
    names.push("scale_gen");
    names.push("lump_gen");
    names.push("terrace_gen");
    names.push("complex_gen");
    names.push("character_moves_horizontally");
    names.push("character_doesnt_move_vertically");
    names.push("create_world");
    names.push("character_dies");
    names.push("sword_attack");
    proof {
        assert(names@.map_values(|name: &'static str| name@) =~= scenario_names());
    }
    names
}

} // verus!
