# dnd_stats

Rules of fifth-edition combat and character building, written in Verus with
their contracts proved.

- `src/combat_core`: the combat engine's rules: d20 roll types, attack
  results, health thresholds, resources and their refresh timings, conditions
  and their lifetimes, triggers, the combat log and combat state, and the
  decision rules of the built-in strategies.
- `src/character_builder`: the character rules: ability scores, classes and
  their static features, armour class, hit points, proficiency bonus, spell
  slots and caster levels, equipment and weapons, attributed bonuses, weapon
  attacks, the character with its combat options and resources, the feats
  and features that change it, and character descriptions.
- `tests/`: scenarios run against the compiled library.
- `app/`: serde copies of the description types, converted to and from the
  library's types.
