use crate::generators::common::generate_overlaid_metadata;
use crate::generators::common::overlaid_metadata_of;
use crate::generators::common::unless_empty;
use crate::generators::ResourceGenerator;
use crate::manifest::ConfigMap;
use crate::manifest::ConfigMapView;
use crate::named::lookup;
use crate::values::Values;
use vstd::prelude::*;

verus! {

/// The generator of config maps, from the config map entries of the
/// configuration.
pub struct ConfigMapGenerator;

/// The config map of the entry `config`, entered under `name`: nothing where
/// the entry is disabled. Data is left out where the entry has none.
pub open spec fn config_map_for(
    values: Values,
    name: Seq<char>,
    config: crate::values::ConfigMap,
) -> Option<ConfigMapView> {
    if !config.enabled {
        None
    } else {
        Some(
            ConfigMapView {
                metadata: overlaid_metadata_of(
                    values,
                    name,
                    "configmap"@,
                    config.labels@,
                    config.annotations@,
                ),
                data: unless_empty(config.data@),
            },
        )
    }
}

/// The config map that the configuration yields for the entry `name`:
/// nothing where there is no such entry or it is disabled.
pub open spec fn config_map_of(values: Values, name: Seq<char>) -> Option<ConfigMapView> {
    match lookup(values.config_maps@, name) {
        Some(config) => config_map_for(values, name, config),
        None => None,
    }
}

impl ResourceGenerator for ConfigMapGenerator {
    type Output = ConfigMap;

    /// The config map of the entry `name`.
    fn generate(&self, values: &Values, name: &str) -> (r: Option<ConfigMap>)
        ensures
            r.deep_view() == config_map_of(*values, name@),
    {
        match values.config_maps.get(name) {
            Some(config) => {
                if !config.enabled {
                    return None;
                }
                let metadata = generate_overlaid_metadata(
                    values,
                    name,
                    "configmap",
                    &config.labels,
                    &config.annotations,
                );
                let data = if config.data.is_empty() {
                    None
                } else {
                    Some(config.data.clone())
                };
                Some(ConfigMap { metadata, data })
            },
            None => None,
        }
    }
}

} // verus!
