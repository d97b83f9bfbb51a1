//! The icon table as it is built in.

use vstd::prelude::*;

verus! {

/// The names that the font-logos icon font covers, each with its glyph: one
/// JSON object from display name to a string of one private-use character.
pub const FONT_LOGOS: &'static str = "{\"Alma\":\"\u{f31d}\",\"Alpine\":\"\u{f300}\",\"AOSC OS\":\"\u{f301}\",\
    \"Apple\":\"\u{f302}\",\"Archcraft\":\"\u{f345}\",\"ArchLabs\":\"\u{f31e}\",\
    \"Arch\":\"\u{f303}\",\"Arco\":\"\u{f346}\",\"Arduino\":\"\u{f34b}\",\
    \"Artix\":\"\u{f31f}\",\"Awesome WM\":\"\u{f354}\",\"Big\":\"\u{f347}\",\
    \"bspwm\":\"\u{f355}\",\"Budgie\":\"\u{f320}\",\"CentOS\":\"\u{f304}\",\
    \"Cinnamon\":\"\u{f35f}\",\"Codeberg\":\"\u{f330}\",\"CoreOS\":\"\u{f305}\",\
    \"Crystal\":\"\u{f348}\",\"Debian\":\"\u{f306}\",\"Deepin\":\"\u{f321}\",\
    \"Devuan\":\"\u{f307}\",\"Docker\":\"\u{f308}\",\"dwm\":\"\u{f356}\",\
    \"elementary OS\":\"\u{f309}\",\"Endeavour OS\":\"\u{f322}\",\
    \"Enlightenment\":\"\u{f357}\",\"F-droid\":\"\u{f36a}\",\"Fedora\":\"\u{f30a}\",\
    \"Fedora (inverse)\":\"\u{f30b}\",\"Ferris\":\"\u{f323}\",\"Flathub\":\"\u{f324}\",\
    \"Fluxbox\":\"\u{f358}\",\"Forgejo\":\"\u{f335}\",\"FOSDEM\":\"\u{f36b}\",\
    \"FreeBSD\":\"\u{f30c}\",\"FreeCAD\":\"\u{f336}\",\"freedesktop.org\":\"\u{f360}\",\
    \"Garuda\":\"\u{f337}\",\"Gentoo\":\"\u{f30d}\",\"GIMP\":\"\u{f338}\",\
    \"Gitea\":\"\u{f339}\",\"GNOME\":\"\u{f361}\",\"GNU Guix\":\"\u{f325}\",\
    \"GTK\":\"\u{f362}\",\"Hyperbola -libre\":\"\u{f33a}\",\"Hyprland\":\"\u{f359}\",\
    \"i3\":\"\u{f35a}\",\"illumos\":\"\u{f326}\",\"Inkscape\":\"\u{f33b}\",\
    \"JWM\":\"\u{f35b}\",\"Kali\":\"\u{f327}\",\"KDE\":\"\u{f373}\",\
    \"KDE Neon\":\"\u{f331}\",\"KDE Plasma\":\"\u{f332}\",\"Kdenlive\":\"\u{f33c}\",\
    \"KiCad\":\"\u{f34c}\",\"Krita\":\"\u{f33d}\",\"Kubuntu\":\"\u{f333}\",\
    \"Kubuntu (inverse)\":\"\u{f334}\",\"Mint\":\"\u{f30e}\",\
    \"Mint (inverse)\":\"\u{f30f}\",\"Loc-OS\":\"\u{f349}\",\"LXDE\":\"\u{f363}\",\
    \"LXLE\":\"\u{f33e}\",\"LXQt\":\"\u{f364}\",\"Mageia\":\"\u{f310}\",\
    \"Mandriva\":\"\u{f311}\",\"Manjaro\":\"\u{f312}\",\"MATE\":\"\u{f365}\",\
    \"mpv\":\"\u{f36e}\",\"MX\":\"\u{f33f}\",\"Neovim\":\"\u{f36f}\",\"NixOS\":\"\u{f313}\",\
    \"Octoprint\":\"\u{f34d}\",\"OpenBSD\":\"\u{f328}\",\"OpenSCAD\":\"\u{f34e}\",\
    \"OpenSUSE\":\"\u{f314}\",\"OSH\":\"\u{f34f}\",\"OSHWA\":\"\u{f350}\",\
    \"OSI\":\"\u{f36c}\",\"Parabola -libre\":\"\u{f340}\",\"Parrot OS\":\"\u{f329}\",\
    \"Pop!_OS\":\"\u{f32a}\",\"PostmarketOS\":\"\u{f374}\",\"Prusa Slicer\":\"\u{f351}\",\
    \"Puppy\":\"\u{f341}\",\"Qt\":\"\u{f375}\",\"Qtile\":\"\u{f35c}\",\
    \"QubesOS\":\"\u{f342}\",\"Raspberry pi\":\"\u{f315}\",\"Red Hat\":\"\u{f316}\",\
    \"RepRap\":\"\u{f352}\",\"RISC-V\":\"\u{f353}\",\"Rocky\":\"\u{f32b}\",\
    \"Sabayon\":\"\u{f317}\",\"Slackware\":\"\u{f318}\",\
    \"Slackware (inverse)\":\"\u{f319}\",\"Snappy\":\"\u{f32c}\",\"Solus\":\"\u{f32d}\",\
    \"Sway\":\"\u{f35d}\",\"Tails\":\"\u{f343}\",\"Thunderbird\":\"\u{f370}\",\
    \"Tor Browser\":\"\u{f371}\",\"Trisquel\":\"\u{f344}\",\"Tux\":\"\u{f31a}\",\
    \"Ubuntu\":\"\u{f31b}\",\"Ubuntu (inverse)\":\"\u{f31c}\",\"Vanilla OS\":\"\u{f366}\",\
    \"Void\":\"\u{f32e}\",\"VS Codium\":\"\u{f372}\",\"Wayland\":\"\u{f367}\",\
    \"Wikimedia\":\"\u{f36d}\",\"Xero\":\"\u{f34a}\",\"XFCE\":\"\u{f368}\",\
    \"Xmonad\":\"\u{f35e}\",\"Xorg\":\"\u{f369}\",\"Zorin OS\":\"\u{f32f}\",\
    \"Windows\":\"\u{e62a}\"}";

} // verus!
