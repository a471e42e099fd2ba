//! What holds of the backends as a whole: what they read from texts that are
//! put together from known parts, what they do next after known replies, and
//! how their answers hang together.

pub mod apk;
pub mod appimage;
pub mod apt_rpm;
pub mod aptitude;
pub mod apx;
pub mod aura;
pub mod brew;
pub mod bun;
pub mod bundler;
pub mod cabal;
pub mod cargo;
pub mod cargo_binstall;
pub mod cave;
pub mod clojure;
pub mod commands;
pub mod composer;
pub mod conan;
pub mod conda;
pub mod coursier;
pub mod cpan;
pub mod cpanm;
pub mod deno;
pub mod dnf;
pub mod dotnet;
pub mod dpkg;
pub mod dub;
pub mod easybuild;
pub mod eepm;
pub mod emerge;
pub mod eopkg;
pub mod flatpak;
pub mod fpm;
pub mod gem;
pub mod go;
pub mod gobo;
pub mod gradle;
pub mod guix;
pub mod hatch;
pub mod haxelib;
pub mod helm;
pub mod ivy;
pub mod julia;
pub mod kiss;
pub mod leiningen;
pub mod sessions;
pub mod sizes;
pub mod texts;
pub mod versions;
