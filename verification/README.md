# loading_bay

The verified core of the Loading Bay game library: its authored-project
document model and checks (header, item and weapon definitions, the asset
catalog and material palettes, scenes, voxel instances, the identity,
inventory, pickup and parent rules of entities, the voxel-object budget,
and their composition into whole-document validation), the expansion of
sparse voxel assets, weapon authoring, vitality (damage, armor and health
supplies), game snapshots and their restoration (the version gate and
legacy weapon migration, then the door network, controls, enemies, health,
hazards, navigation, enemy combat, player controllers, pickups, drops,
encounters, beacons and schedules), and the decisions of the Studio
adapter (request admission, project paths and the checks of what the host
observes of them, trusted host files, asset import, scene, scene-object,
voxel-instance and voxel-object batch edits, voxel-object surface modes,
voxel lookups, project revalidation on host observations, and playback
sessions and readouts).

- `src/` is the library. Its functions carry contracts that Verus proves,
  except six small wrappers around std path and sorting calls
  (`Path::is_absolute`, `Path::starts_with`, `Path ==`, `Path::components`,
  and two slice sorts), whose contracts are trusted and say only what std
  documents of them. Floating-point values of documents and snapshots are carried as
  their IEEE-754 bit patterns; engine state that the logic only reads is
  given to it as plain values.
- `tests/` exercises the library on concrete values.
- `app/` is the host side: JSON wire forms with their serde derives, request
  admission on the wire, and the file-system work whose observations the
  library decides on.
